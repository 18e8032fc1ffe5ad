[package]
name = "postcrab"
version = "0.1.0"
edition = "2021"
publish = false

[dependencies]
relm4 = "*"
reqwest = "*"
sourceview5 = "*"
