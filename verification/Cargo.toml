[package]
name = "pcf8563_dd"
version = "0.1.0"
edition = "2021"
publish = false

[dependencies]
embedded-hal = "*"
embedded-hal-async = "*"
rtcc = "*"
