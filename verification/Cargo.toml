[package]
name = "nu_plugin_lua"
version = "0.1.0"
edition = "2021"
publish = false

[dependencies]
mlua = { version = "=0.12.2", features = ["lua54", "vendored", "send"] }
uuid = { version = "=1.27.0", features = ["v4"] }
serde = { version = "=1.0.229", features = ["derive"] }
typetag = "=0.2.23"
parking_lot = "=0.12.5"
nu-plugin = "=0.114.1"
nu-protocol = "=0.114.1"
