[package]
name = "serenity"
version = "0.1.0"
edition = "2021"
publish = false

[dependencies]
arrayvec = "0.7"
nonmax = "0.5"
percent-encoding = "2.3"
to-arraystring = "0.2"
serde = { version = "1", features = ["derive"] }
serde_json = "1"
reqwest = { version = "0.12", default-features = false, features = ["json", "multipart"] }
tokio = { version = "1", features = ["sync", "time"] }
futures = "0.3"
tracing = "0.1"
