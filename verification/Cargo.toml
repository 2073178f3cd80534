[package]
name = "minet"
version = "0.1.0"
edition = "2021"
publish = false

[dependencies]
lz4_flex = "*"
uuid = { version = "*", features = ["v4"] }
crc = "*"
rand = "*"
async-std = "*"
tokio = { version = "*", features = ["macros", "rt-multi-thread", "net", "io-util"] }
