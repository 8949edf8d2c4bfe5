[package]
name = "connect4_web"
version = "0.1.0"
edition = "2021"
publish = false

[dependencies]
askama = "0.14"
axum = "=0.7.9"
tokio = { version = "=1.54.1", features = ["macros", "rt-multi-thread", "net"] }
tower-http = { version = "=0.5.2", features = ["fs"] }
