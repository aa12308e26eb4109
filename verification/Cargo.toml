[package]
name = "canberra_core"
version = "0.1.0"
edition = "2021"
publish = false

[dependencies]
anyhow = "*"
once_cell = "*"
qmetaobject = "*"
serde = { version = "*", features = ["derive"] }
uuid = { version = "*", features = ["v4"] }
