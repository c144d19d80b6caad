[package]
name = "stlib"
version = "0.1.0"
edition = "2021"
publish = false

[dependencies]
bit-vec = "*"
byteorder = "*"
rand = "0.8"
sha1 = "0.10"
urlencoding = "*"
serde = { version = "1", features = ["derive"] }
serde_bencode = "*"
serde_bytes = "*"
reqwest = { version = "*", default-features = false, features = ["blocking"] }

[dev-dependencies]
hex = "*"
