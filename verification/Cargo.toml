[package]
name = "pngpix"
version = "0.1.0"
edition = "2021"
publish = false

[dependencies]
png = "*"
reqwest = { version = "*", features = ["blocking"] }
argh = "*"
