[package]
name = "quantified-core"
version = "0.1.0"
edition = "2021"
publish = false

[dependencies]
chrono = { version = "0.4", default-features = false, features = ["std"] }
hex = "0.4"
rusqlite = "*"
sha2 = "0.10"
shellexpand = "3"
thiserror = "1"
uniffi = "0.28"

[dev-dependencies]
tempfile = "3"
