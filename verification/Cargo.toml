[package]
name = "filestore"
version = "0.1.0"
edition = "2021"
publish = false

[dependencies]
bytes = "=1.12.1"
tokio = { version = "=1.53.2", features = ["fs", "macros", "rt-multi-thread"] }
warp = { version = "=0.4.3", features = ["server"] }
