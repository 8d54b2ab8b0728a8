[package]
name = "pet_print"
version = "0.1.0"
edition = "2021"
publish = false

[dependencies]
mupdf = "*"
printers = "*"
serde = { version = "1", features = ["derive"] }
serde_json = "1"
tempfile = "3"
