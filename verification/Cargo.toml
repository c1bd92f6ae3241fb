[package]
name = "qqx"
version = "0.1.0"
edition = "2021"
publish = false

[dependencies]
async-graphql = { version = "=2.11.3", default-features = false, features = ["uuid", "chrono"] }
uuid = "=0.8.2"
chrono = "=0.4.45"
Inflector = "=0.11.4"
darling = "=0.12.4"
syn = "=1.0.109"
quote = "=1.0.47"
proc-macro2 = "=1.0.107"
