[package]
name = "parquet_select"
version = "0.1.0"
edition = "2021"
publish = false

[dependencies]
arrow = "=60.0.0"
parquet = "=60.0.0"

[dev-dependencies]
bytes = "=1.12.1"
