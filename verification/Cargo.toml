[package]
name = "geobacter_runtime"
version = "0.1.0"
edition = "2021"
publish = false

[dependencies]
goblin = "=0.10.7"
smallvec = "=1.16.4"
rmp-serde = "=1.3.1"
serde = { version = "=1.0.229", features = ["derive"] }
libc = "0.2"
