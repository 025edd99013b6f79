[package]
name = "nav_state"
version = "0.1.0"
edition = "2021"
publish = false

[dependencies]
ratatui = "0.23"
tui-input = { version = "*", default-features = false }
