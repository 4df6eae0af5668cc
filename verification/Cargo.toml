[package]
name = "photo_archive"
version = "0.1.0"
edition = "2021"
publish = false

[dependencies]
rocket = { version = "0.5", features = ["json"] }
clap = { version = "4", features = ["derive"] }
log = "0.4"
nanoid = "0.4"
sanitize-filename = "*"
simple_logger = "*"
