[package]
name = "swarm_bliss"
version = "0.1.0"
edition = "2021"
publish = false

[dependencies]
dotenv = "*"
log = "*"
reqwest = { version = "*", default-features = false, features = ["json", "rustls-tls"] }
serde = { version = "*", features = ["derive"] }
simple_logger = "*"
tokio = { version = "*", features = ["rt-multi-thread", "macros", "time", "sync"] }
