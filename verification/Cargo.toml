[package]
name = "compiler"
version = "0.1.0"
edition = "2021"
publish = false

[dependencies]
proc-macro2 = { version = "=1.0.107", default-features = false }
serde = { version = "=1.0.229", features = ["derive"] }
serde_yaml = "=0.9.34"
thiserror = "=1.0.69"
axum = "=0.7.9"
tower = "=0.4.13"
http = "=1.5.0"
futures-util = "=0.3.34"
tokio = { version = "=1.54.1", features = ["macros", "rt-multi-thread", "net"] }
