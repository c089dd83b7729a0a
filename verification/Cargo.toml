[package]
name = "airings"
version = "0.1.0"
edition = "2021"
publish = false

[dependencies]
kuchiki = "=0.8.1"
hyper = { version = "=0.14.32", features = ["client", "http1", "tcp", "runtime"] }
tokio = { version = "=1.53.2", features = ["rt"] }
