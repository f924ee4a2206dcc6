[package]
name = "mars_controller"
version = "0.1.0"
edition = "2021"
publish = false

[dependencies]
cosmwasm-schema = "2"
cosmwasm-std = "2"
cw2 = "2"
cw-ica-controller = "*"
cw-storage-plus = "2"
cw-utils = "2"
kujira = "*"
serde = { version = "1", features = ["derive"] }
thiserror = "1"
