[package]
name = "declickbait"
version = "0.1.0"
edition = "2021"
publish = false

[dependencies]
anyhow = "=1.0.104"
clap = { version = "=4.6.7", features = ["derive", "env"] }
colog = "=1.4.0"
futures = "=0.3.34"
log = "=0.4.34"
reqwest = { version = "=0.12.28", default-features = false, features = ["json", "rustls-tls"] }
serde = { version = "=1.0.229", features = ["derive"] }
serenity = { version = "=0.12.5", features = ["collector"] }
tokio = { version = "=1.53.2", features = ["macros", "rt-multi-thread", "time"] }

[dev-dependencies]
regex = "=1.13.1"
