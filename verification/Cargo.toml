[package]
name = "mysh"
version = "0.1.0"
edition = "2021"
publish = false

[dependencies]
colored = "*"
crossterm = "*"
serde = { version = "*", features = ["derive"] }
serde_json = "*"
