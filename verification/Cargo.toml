[package]
name = "b2_uploader"
version = "0.1.0"
edition = "2021"
publish = false

[dependencies]
sha1_smol = "=1.0.1"
urlencoding = "=2.1.3"
rand = "=0.10.3"
tokio = { version = "=1.53.2", features = ["rt", "sync", "time", "macros", "io-util"] }
