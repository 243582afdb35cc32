[package]
name = "async_rwlock"
version = "0.1.0"
edition = "2021"
publish = false

[dependencies]
async-trait = "*"
smoltcp = "*"
