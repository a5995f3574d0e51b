[package]
name = "board_interaction"
version = "0.1.0"
edition = "2021"
publish = false

[dependencies]
ggez = "0.6.1"
