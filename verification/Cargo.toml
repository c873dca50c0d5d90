[package]
name = "saros_dlmm"
version = "0.1.0"
edition = "2021"
publish = false

[dependencies]
ruint = "*"
spl-token-2022 = "*"
