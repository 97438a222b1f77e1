[package]
name = "uuidecho"
version = "0.1.0"
edition = "2021"
publish = false

[dependencies]
ring = "=0.17.14"
uuid = { version = "=1.27.0", features = ["v5"] }
data-encoding = "=2.11.1"
clap = "=4.6.7"
chrono = "=0.4.45"
