[package]
name = "auto_format"
version = "0.1.0"
edition = "2021"
publish = false

[dependencies]
serde_json = "1"
serde_urlencoded = "0.7"
tera = "1"
