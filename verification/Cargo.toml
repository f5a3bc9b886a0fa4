[package]
name = "ttymap"
version = "0.1.0"
edition = "2021"
publish = false

[dependencies]
crossterm = "0.28"
mlua = { version = "0.10", features = ["lua54", "vendored"] }
serde = { version = "1", features = ["derive"] }
serde_json = "1"
directories = "5"
chrono = "0.4"
clap = { version = "4", features = ["derive"] }
log = "0.4"
