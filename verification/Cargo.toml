[package]
name = "search_messages"
version = "0.1.0"
edition = "2021"
publish = false

[dependencies]
nonmax = "0.5"
strum = { version = "0.26", features = ["derive"] }
tokio = { version = "1", features = ["time", "rt", "macros"] }
