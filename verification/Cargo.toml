[package]
name = "vara_trinity"
version = "0.1.0"
edition = "2021"
publish = false

[dependencies]
gstd = "*"
sails-rs = "*"
parity-scale-codec = { version = "*", default-features = false, features = ["derive"] }
scale-info = { version = "*", default-features = false, features = ["derive"] }
hex = { version = "*", default-features = false, features = ["alloc"] }
