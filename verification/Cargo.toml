[package]
name = "broker_coordination"
version = "0.1.0"
edition = "2021"
publish = false

[dependencies]
rand = "*"
serde = { version = "1", features = ["derive"] }
cheetah-string = { version = "*", features = ["serde"] }
tracing = "0.1"
