[package]
name = "cc_switch_tui"
version = "0.1.0"
edition = "2021"
publish = false

[dependencies]
crossterm = "=0.29.0"
ratatui = "=0.30.2"
rusqlite = { version = "=0.41.1", features = ["bundled", "hooks"] }
tachyonfx = "=0.25.2"
tokio = { version = "=1.54.1", features = ["rt", "time", "macros"] }
