[package]
name = "wallet713_api"
version = "0.1.0"
edition = "2021"
publish = false

[dependencies]
uuid = "*"
grin_util = "*"
grin_core = "*"
grin_p2p = "*"
