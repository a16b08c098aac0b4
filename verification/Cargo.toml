[package]
name = "kobzar"
version = "0.1.0"
edition = "2021"
publish = false

[dependencies]
arrayvec = "0.7"
smallvec = "=1.16.4"
time = "=0.3.55"
