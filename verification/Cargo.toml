[package]
name = "idle_terminal"
version = "0.1.0"
edition = "2021"
publish = false

[dependencies]
tui = { version = "=0.8.0", default-features = false, features = ["crossterm"] }
crossterm = "=0.14.2"
