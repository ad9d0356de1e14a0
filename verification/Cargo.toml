[package]
name = "term_tabs"
version = "0.1.0"
edition = "2021"
publish = false

[dependencies]
alacritty_terminal = "*"
env_logger = "*"
log = "*"
tokio = { version = "*", features = ["rt-multi-thread", "sync", "macros", "time"] }
