[package]
name = "socks_connector"
version = "0.1.0"
edition = "2021"
publish = false

[dependencies]
actix-connect = "=2.0.0"
actix-http = "=2.2.2"
actix-service = "=1.0.6"
tokio-socks = "=0.2.2"
