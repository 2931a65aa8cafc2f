[package]
name = "taiko-revm"
version = "0.1.0"
edition = "2021"
publish = false

[dependencies]
revm = { version = "24", default-features = false, features = ["std"] }
once_cell = { version = "=1.21.4", default-features = false, features = ["race", "alloc"] }
auto_impl = "=1.4.0"
serde = { version = "=1.0.229", features = ["derive"] }
kzg-rs = "=0.2.9"
