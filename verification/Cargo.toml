[package]
name = "radioklw"
version = "0.1.0"
edition = "2021"
publish = false

[dependencies]
rand = "0.8"
serde = { version = "1", features = ["derive"] }
serde_json = "1"
chrono = { version = "0.4", features = ["serde"] }
clap = { version = "4", features = ["derive"] }
dns-lookup = "2"
reqwest = { version = "0.12", default-features = false, features = ["json", "rustls-tls"] }
termion = "4"
tokio = { version = "1", features = ["full"] }
