[package]
name = "native_programs"
version = "0.1.0"
edition = "2021"
publish = false

[dependencies]
futures = "0.3"
hashbrown = "0.7"
parity-scale-codec = { version = "1", features = ["derive"] }
spin = "0.5"
