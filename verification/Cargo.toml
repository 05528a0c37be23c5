[package]
name = "quantum_engine"
version = "0.1.0"
edition = "2021"
publish = false

[dependencies]
rand = "*"
rayon = "*"
anyhow = "*"
chrono = "*"
dotenv = "*"
env_logger = "*"
futures-util = "*"
log = "*"
quick-xml = { version = "*", features = ["serialize"] }
reqwest = { version = "*", default-features = false, features = ["json"] }
serde = { version = "*", features = ["derive"] }
serde_json = "*"
tokio = { version = "*", features = ["macros", "rt-multi-thread", "sync", "time"] }
tokio-tungstenite = "*"
url = "*"
