[package]
name = "pdf2pngs"
version = "0.1.0"
edition = "2021"
publish = false

[dependencies]
cairo-rs = { version = "0.20", features = ["png"] }
clap = "=4.6.7"
glib = "0.20"
poppler = { version = "=0.6.0", features = ["render"] }
