[package]
name = "twinpane"
version = "0.1.0"
edition = "2021"
publish = false

[dependencies]
crossterm = "*"
ratatui = "*"
tokio = { version = "*", features = ["process", "rt-multi-thread", "macros"] }
