[package]
name = "oxine"
version = "0.1.0"
edition = "2021"
publish = false

[dependencies]
base62 = "=2.2.6"
codepage-437 = "=0.1.0"
flate2 = "=1.1.10"
log = "=0.4.34"
md5 = "0.7"
rand = "=0.8.8"
serde = { version = "=1.0.229", features = ["derive"] }
tokio = { version = "=1.54.1", features = ["io-util", "macros", "net", "rt-multi-thread", "sync", "time"] }
toml = "=0.8.23"
