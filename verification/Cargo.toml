[package]
name = "maki_core"
version = "0.1.0"
edition = "2021"
publish = false

[dependencies]
crossterm = "0.28"
flume = "0.11"
mlua = { version = "0.10", features = ["lua54", "module", "async", "serialize"] }
ratatui = "0.29"
serde_json = "1"
smol = "2"
