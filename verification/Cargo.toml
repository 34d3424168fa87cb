[package]
name = "x_cli"
version = "5.0.0"
edition = "2021"
publish = false

[dependencies]
base64 = "=0.22.1"
chrono = "=0.4.45"
clap = { version = "=4.6.7", features = ["string"] }
regex = "=1.13.1"
reqwest = { version = "=0.12.28", default-features = false, features = ["blocking", "rustls-tls"] }
ring = "=0.17.14"
serde_json = "=1.0.154"
serde_urlencoded = "=0.7.1"
