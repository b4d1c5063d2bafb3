[package]
name = "ttf_metrics"
version = "0.1.0"
edition = "2021"

[dependencies]
byteorder = "1"
clap = { version = "4", features = ["derive"] }
