[package]
name = "plan_bridge"
version = "0.1.0"
edition = "2021"
publish = false

[dependencies]
polars = { version = "=0.46.0", default-features = false, features = ["lazy", "csv", "ipc", "strings", "regex", "fmt", "dtype-date", "dtype-datetime", "dtype-time", "string_pad"] }
polars-arrow = "=0.46.0"
serde_json = "=1.0.151"
