[package]
name = "field_index"
version = "0.1.0"
edition = "2021"
publish = false

[dependencies]
bitvec = "1.0.1"
serde_json = "1.0"
parking_lot = "0.12"
rocksdb = "0.21"
tokio = { version = "1", default-features = false, features = ["sync"] }
validator = { version = "0.16", features = ["derive"] }
