[package]
name = "bpc"
version = "0.1.0"
edition = "2021"
publish = false

[dependencies]
anyhow = "1"
chrono = "0.4"
ctrlc = "3"
rodio = { version = "0.19", default-features = false }
