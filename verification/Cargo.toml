[package]
name = "locator_admin_rust"
version = "0.1.0"
edition = "2021"
publish = false

[dependencies]
time = { version = "=0.3.55", features = ["formatting", "parsing", "serde", "macros"] }
urlencoding = "=2.1.3"
actix-web = "=4.18.1"
actix-cors = "=0.7.2"
actix-web-lab = "=0.19.2"
tokio = { version = "=1.54.1", features = ["macros", "rt-multi-thread", "sync"] }
tokio-util = "=0.7.20"
kafka = { version = "=0.10.0", default-features = false }
reqwest = { version = "=0.11.27", default-features = false, features = ["json", "stream"] }
serde = { version = "=1.0.229", features = ["derive"] }
serde_json = "=1.0.154"
serde_path_to_error = "=0.1.20"
tracing = "=0.1.44"
tracing-actix-web = "=0.7.25"
anyhow = "=1.0.104"
thiserror = "=1.0.69"
uuid = { version = "=1.29.0", features = ["v4"] }
