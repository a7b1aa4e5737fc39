[package]
name = "blake2b_bench"
version = "0.1.0"
edition = "2021"
publish = false

[dependencies]
blake2 = "=0.9.2"
blake2-rfc = "=0.2.18"
blake2b_simd = "=1.0.5"
digest = "=0.9.0"
hex = "=0.4.3"
kdam = { version = "=0.6.4", features = ["rich", "spinner"] }
structopt = "=0.3.26"

[dev-dependencies]
