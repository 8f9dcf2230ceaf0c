[package]
name = "free_mode"
version = "0.1.0"
edition = "2021"
publish = false

[dependencies]
async-trait = "0.1"
futures = "0.3"
ratatui = "0.29"
tracing = "0.1"
