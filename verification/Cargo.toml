[package]
name = "gotham"
version = "0.1.0"
edition = "2021"
publish = false

[dependencies]
base64 = "0.13"
futures = "0.1"
rand = "0.4"
url = "1.7"
