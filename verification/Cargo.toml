[package]
name = "vnode_store"
version = "0.1.0"
edition = "2021"
publish = false

[dependencies]
byteorder = "1"
bytes = { version = "1", features = ["serde"] }
rocksdb = { version = "*", default-features = false, features = ["lz4"] }
serde = { version = "1", features = ["derive"] }

[dev-dependencies]
tempfile = "3"
