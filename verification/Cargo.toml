[package]
name = "gazo"
version = "0.1.0"
edition = "2021"
publish = false

[dependencies]
png = "0.16"
minifb = "*"
