[package]
name = "docx_text"
version = "0.1.0"
edition = "2021"
publish = false

[dependencies]
html-builder = "0.4"
minidom = "=0.14.0"
zip = { version = "2", default-features = false, features = ["deflate"] }
