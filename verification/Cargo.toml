[package]
name = "firec"
version = "0.1.0"
edition = "2021"
publish = false

[dependencies]
uuid = { version = "1", features = ["v4"] }
users = "0.11"
sysinfo = "0.26"
hyper = { version = "0.14", features = ["client", "http1"] }
hyperlocal = "0.8"
tokio = { version = "1", features = ["fs", "process", "time", "rt"] }
