[package]
name = "tantivy_node"
version = "0.1.0"
edition = "2021"
publish = false

[dependencies]
tantivy = "=0.22.1"
tantivy-fst = "=0.5.0"
ordermap = { version = "=1.2.2", features = ["serde"] }
serde = { version = "=1.0.229", features = ["derive"] }
neon = { version = "=1.1.2", features = ["serde"] }
