[package]
name = "nkf"
version = "0.1.0"
edition = "2021"
publish = false

[dependencies]
base64 = "0.22"
encoding_rs = "0.8"
filetime = "0.2"
kanaria = "0.2"
unicode-normalization = "0.1"
