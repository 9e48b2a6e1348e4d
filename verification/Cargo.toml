[package]
name = "yumd"
version = "0.1.0"
edition = "2021"
publish = false

[dependencies]
url = "2"
serde = { version = "1", features = ["derive"] }
serde_derive = "1"
serde_json = "1"
thiserror = "1"
reqwest = { version = "0.11", default-features = false, features = ["json", "rustls-tls"] }
tokio = { version = "1", features = ["macros", "rt-multi-thread"] }
confy = "0.5"
tracing = "0.1"
env_logger = "0.10"
dotenv = "0.15"
ureq = { version = "2", default-features = false }
eframe = { version = "0.22", default-features = false, features = ["default_fonts", "glow"] }
