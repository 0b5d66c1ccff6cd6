[package]
name = "cli_clipboard"
version = "0.1.0"
edition = "2021"
publish = false

[dependencies]
wl-clipboard-rs = "*"
