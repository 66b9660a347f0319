[package]
name = "webkitten"
version = "0.1.0"
edition = "2021"
publish = false

[dependencies]
toml = { version = "0.2", default-features = false }
url = "*"
dirs = "*"
hlua = "*"
getopts = "*"
