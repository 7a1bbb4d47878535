[package]
name = "search"
version = "0.1.0"
edition = "2021"
publish = false

[dependencies]
rand = "=0.8.8"
iced_native = "0.10"
iced_style = "0.8"
