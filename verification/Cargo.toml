[package]
name = "swagg"
version = "0.1.0"
edition = "2021"
publish = false

[dependencies]
inflections = "1"
openapiv3 = "*"
proc-macro2 = "1"
serde_json = "1"
serde_yaml = "*"
