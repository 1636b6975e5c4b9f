[package]
name = "charset_decode"
version = "0.1.0"
edition = "2021"
publish = false

[dependencies]
charset-normalizer-rs = "*"
encoding_rs = "0.8"
thiserror = "1"
