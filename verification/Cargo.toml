[package]
name = "available_range"
version = "0.1.0"
edition = "2021"
publish = false

[dependencies]
async-graphql = { version = "7", default-features = false, features = ["dynamic-schema"] }
