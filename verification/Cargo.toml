[package]
name = "ili9486"
version = "0.1.0"
edition = "2021"
publish = false

[dependencies]
display-interface = "0.4"
embedded-graphics = "0.7"
embedded-hal = "0.2"
