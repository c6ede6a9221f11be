[package]
name = "pyload_tui"
version = "0.1.0"
edition = "2021"
publish = false

[dependencies]
crossterm = "*"
dirs = "*"
kdl = "*"
ratatui = "*"
ratatui-textarea = "*"
serde_json = "1"
tokio = { version = "1", features = ["full"] }
tui-checkbox = "*"
