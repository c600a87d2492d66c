[package]
name = "moonglass"
version = "0.1.0"
edition = "2021"
publish = false

[dependencies]
sha2 = "=0.10.9"
ssz_rs = "=0.9.0"
blst = { version = "=0.3.17", features = ["no-threads", "portable"] }
