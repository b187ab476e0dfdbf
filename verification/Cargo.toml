[package]
name = "atomic_struct"
version = "0.1.0"
edition = "2021"
publish = false

[dependencies]
tokio = { version = "1", features = ["sync", "rt", "rt-multi-thread"] }
serde = "1"
syn = { version = "2", features = ["full"] }
quote = "1"
proc-macro2 = "1"
