[package]
name = "wasmrt"
version = "0.1.0"
edition = "2021"
publish = false

[dependencies]
target-lexicon = "=0.13.5"
cranelift-codegen = "=0.122.0"
serde = { version = "=1.0.229", features = ["derive"] }
