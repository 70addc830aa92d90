[package]
name = "actix_web_multipart_file"
version = "0.1.0"
edition = "2021"
publish = false

[dependencies]
actix-web = { version = "0.7", default-features = false }
bytes = "0.4"
failure = "0.1"
futures = "0.1"
mime = "0.3"
tempfile = "3"
