[package]
name = "ceres"
version = "0.1.0"
edition = "2021"
publish = false

[dependencies]
clap = "*"
execute = "*"
reqwest = { version = "*", default-features = false, features = ["rustls-tls"] }
serde = { version = "*", features = ["derive"] }
serde_json = "*"
tokio = { version = "*", features = ["macros", "rt-multi-thread"] }
