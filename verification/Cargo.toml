[package]
name = "annotation_store"
version = "0.1.0"
edition = "2021"
publish = false

[dependencies]
interval_tree = "*"
serde = { version = "*", features = ["derive"] }
