[package]
name = "disboard"
version = "0.1.0"
edition = "2021"
publish = false

[dependencies]
shakmaty = "=0.27.3"
uuid = { version = "=1.29.0", features = ["v4"] }
cxx = "=1.0.205"
