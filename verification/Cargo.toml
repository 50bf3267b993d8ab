[package]
name = "dl-spotify"
version = "0.1.0"
edition = "2021"
publish = false

[dependencies]
clap = { version = "3", features = ["derive", "env"] }
librespot = { version = "0.3", default-features = false }
tokio = { version = "1", features = ["rt-multi-thread", "macros"] }
