[package]
name = "churon"
version = "0.1.0"
edition = "2021"
publish = false

[dependencies]
ndarray = "=0.16.1"
ort = "=2.0.0-rc.13"
extendr-api = "=0.8.2"
