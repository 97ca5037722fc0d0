[package]
name = "termhelp"
version = "0.1.0"
edition = "2021"
publish = false

[dependencies]
anyhow = "1"
clap = { version = "4", features = ["derive"] }
strip-ansi-escapes = "0.2"
termimad = "*"
terminal-light = "*"
unicode-width = "*"
