[package]
name = "dfio"
version = "0.1.0"
edition = "2021"
publish = false

[dependencies]
anyhow = "=1.0.104"
hdv = { version = "=0.7.0", features = ["polars"] }
polars = { version = "=0.47.1", features = ["lazy", "csv", "json", "dtype-categorical"] }
