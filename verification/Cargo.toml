[package]
name = "galaxy_map"
version = "0.1.0"
edition = "2021"
publish = false

[dependencies]
colorgrad = "0.6"
reqwest = { version = "0.12", default-features = false, features = ["json", "rustls-tls"] }
serde = { version = "1", features = ["derive"] }
serde_json = "1"
tokio = { version = "1", features = ["macros", "rt-multi-thread", "time"] }
