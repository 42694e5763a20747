[package]
name = "typed_image"
version = "0.1.0"
edition = "2021"
publish = false

[dependencies]
rscam = { version = "=0.5.5", features = ["no_wrapper"] }
serde = { version = "=1.0.229", features = ["derive"] }
