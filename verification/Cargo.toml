[package]
name = "diffsol"
version = "0.1.0"
edition = "2021"
publish = false

[dependencies]
nalgebra = { version = "0.32", default-features = false, features = ["std"] }
num-traits = "0.2"
anyhow = "1"
thiserror = "1"
