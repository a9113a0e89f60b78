[package]
name = "jargo"
version = "0.1.0"
edition = "2021"
publish = false

[dependencies]
toml = "0.8"
zip = { version = "2", default-features = false, features = ["deflate"] }
clap = { version = "4", features = ["derive"] }
dirs = "5"
tracing = "0.1"
tracing-subscriber = "0.3"
