[package]
name = "coffee"
version = "0.1.0"
edition = "2021"
publish = false

[dependencies]
chrono = "*"
clap = "*"
ndarray = "*"
polars = { version = "*", default-features = false, features = ["csv"] }
