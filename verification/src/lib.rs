//! Routing rules and key-entry dialog state for the composite "Free" provider.

pub mod text;
pub mod dialog;
pub mod provider;
pub mod laws;
pub mod display;
