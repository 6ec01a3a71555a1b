[package]
name = "kapsule"
version = "0.1.0"
edition = "2021"
publish = false

[dependencies]
chardetng = "=0.1.17"
encoding_rs = "=0.8.42"
flate2 = "=1.1.10"
tar = "=0.4.46"
zip = "=8.6.0"
