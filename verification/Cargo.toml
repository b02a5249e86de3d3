[package]
name = "tab_supervisor"
version = "0.1.0"
edition = "2021"
publish = false

[dependencies]
env_logger = "=0.10.2"
headless_chrome = "=1.0.9"
jemallocator = "=0.5.4"
log = "=0.4.34"
ntex = { version = "2", features = ["tokio"] }
serde = { version = "=1.0.229", features = ["derive"] }
