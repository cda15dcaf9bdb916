[package]
name = "config_store"
version = "0.1.0"
edition = "2021"
publish = false

[dependencies]
rusqlite = "*"
clap = { version = "*", features = ["derive"] }
clap_complete = "*"
