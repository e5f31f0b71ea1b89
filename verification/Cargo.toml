[package]
name = "tuple_vec_map"
version = "1.0.1"
edition = "2021"
publish = false

[dependencies]
serde = "1.0"

[dev-dependencies]
serde_json = "1.0"
