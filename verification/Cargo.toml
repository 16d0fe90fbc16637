[package]
name = "bundle_resolve"
version = "0.1.0"
edition = "2021"
publish = false

[dependencies]
libc = "*"
mktemp = "*"
zip = { version = "*", default-features = false, features = ["deflate"] }
