[package]
name = "passm3nage"
version = "0.1.0"
edition = "2021"
publish = false

[dependencies]
sodiumoxide = "0.2.7"
secrecy = "0.8"
serde = { version = "1", features = ["derive"] }
serde_json = "1"
hex = "0.4"
thiserror = "1"
crossterm = "0.28"
ratatui = "0.29"
