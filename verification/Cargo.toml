[package]
name = "favcrm"
version = "0.1.0"
edition = "2021"
publish = false

[dependencies]
anyhow = "1"
clap = { version = "4", features = ["derive", "env"] }
directories = "5"
reqwest = { version = "0.12", default-features = false, features = ["json", "rustls-tls"] }
serde = { version = "1", features = ["derive"] }
serde_json = "1"
tabled = "0.16"
tokio = { version = "1", features = ["macros", "rt-multi-thread"] }
toml = "0.8"
