# free_mode

Verified core of the composite "Free" LLM provider (OpenCode Zen first,
the OpenRouter free router as fallback) and of the dialog that collects
its two API keys.

- `src/text.rs` – character-level helpers: exact `trim`, prefix and equality tests.
- `src/dialog.rs` – the key dialog's state machine and key masking.
- `src/display.rs` – what the dialog shows, as plain values (sizes, masked keys, hints).
- `src/provider.rs` – model translation, the fallback decision, health combination,
  the advertised model list and capabilities.
- `src/laws.rs` – properties proved across these operations.
- `app/` – the asynchronous provider over the two upstreams and the terminal drawing.
