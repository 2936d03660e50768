[package]
name = "bincode2proof"
version = "0.1.0"
edition = "2021"
publish = false

[dependencies]
serde = { version = "1", features = ["derive"] }
bincode = "1"
wasm-bindgen = "0.2"

[dev-dependencies]
sha2 = { version = "0.10", features = ["compress"] }
