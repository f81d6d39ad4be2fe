[package]
name = "nemesis_merge"
version = "0.1.0"
edition = "2021"
publish = false

[dependencies]
dashmap = "=6.2.1"
serde = { version = "=1.0.229", features = ["derive"] }
rayon = "=1.12.0"
jwalk = "=0.8.1"
indexmap = "=2.14.2"
sonic-rs = "*"
simd-json = "*"
