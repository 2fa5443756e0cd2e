[package]
name = "product_rest"
version = "0.1.0"
edition = "2021"
publish = false

[dependencies]
fastly = "*"
serde = { version = "1", features = ["derive"] }
