[package]
name = "pg_shim"
version = "0.1.0"
edition = "2021"
publish = false

[dependencies]
pg-srv = "=0.1.0"
datafusion = { version = "=8.0.0", default-features = false }
tokio = { version = "1", features = ["net", "io-util", "rt"] }
async-trait = "0.1"
log = "0.4"
