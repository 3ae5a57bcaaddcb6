[package]
name = "marginfi"
version = "0.1.0"
edition = "2021"
publish = false

[dependencies]
fixed = "1.12.0"
anchor-lang = "0.26.0"
anchor-spl = { version = "0.26.0", default-features = false, features = ["token"] }
