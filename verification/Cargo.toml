[package]
name = "rest_client"
version = "0.1.0"
edition = "2021"
publish = false

[dependencies]
hyper = "=0.10.16"
url = "=1.7.2"

[dev-dependencies]
serde_json = "1"
