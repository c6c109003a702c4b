[package]
name = "uuid_rs"
version = "0.1.0"
edition = "2021"
publish = false

[dependencies]
mac_address = "*"
md5 = "*"
sha1 = "*"
rand = "0.8"
nix = { version = "*", features = ["user"] }
