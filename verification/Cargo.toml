[package]
name = "f3"
version = "0.1.0"
edition = "2021"
publish = false

[dependencies]
stm32f30x = "*"
nb = "*"
