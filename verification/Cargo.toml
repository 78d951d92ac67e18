[package]
name = "parcel_shipping"
version = "0.1.0"
edition = "2021"
publish = false

[dependencies]
clap = { version = "*", features = ["derive"] }
config = "*"
serde = { version = "*", features = ["derive"] }
serde_derive = "*"
