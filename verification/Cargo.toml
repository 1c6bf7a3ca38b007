[package]
name = "ollama_manager"
version = "0.1.0"
edition = "2021"
publish = false

[dependencies]
rand = "=0.10.3"
axum = "=0.8.9"
tokio = { version = "=1.53.2", features = ["rt-multi-thread", "macros", "net", "time", "sync"] }
reqwest = { version = "=0.13.5", default-features = false, features = ["json", "stream"] }
serde = { version = "=1.0.229", features = ["derive"] }
serde_json = "=1.0.151"
serde_yaml = "=0.9.34"
futures-util = "=0.3.34"
http = "=1.5.0"
http-body-util = "=0.1.5"
hyper = "=1.11.1"
tower = "=0.5.3"
tracing = "=0.1.44"
tracing-subscriber = "=0.3.23"
anyhow = "=1.0.104"
thiserror = "=2.0.21"
async-trait = "=0.1.92"
