[package]
name = "collector"
version = "0.1.0"
edition = "2021"
publish = false

[dependencies]
neli = "0.6"
structopt = "0.3"

[dev-dependencies]
protobuf = "2"
