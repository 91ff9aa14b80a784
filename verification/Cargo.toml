[package]
name = "napi_modules"
version = "0.1.0"
edition = "2021"
publish = false

[dependencies]
camino = "1"
fs-err = "*"
memoize = "*"
napi = { version = "3", features = ["napi9", "tokio_rt"] }
url = "2"
