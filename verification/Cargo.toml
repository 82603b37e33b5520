[package]
name = "modern_webview"
version = "0.1.0"
edition = "2021"
publish = false

[dependencies]
include_dir = "*"
