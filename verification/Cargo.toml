[package]
name = "cuttle"
version = "0.1.0"
edition = "2021"
publish = false

[dependencies]
flume = "*"
tokio = { version = "*", default-features = false, features = ["rt", "time"] }
serde = { version = "*", features = ["derive"] }
serde_json = "*"
chrono = "*"
clap = { version = "*", features = ["derive"] }
anyhow = "*"
thiserror = "*"
tracing = "*"
tracing-subscriber = "*"
ariadne = "*"
