[package]
name = "chat_relay"
version = "0.1.0"
edition = "2021"
publish = false

[dependencies]
crossterm = "*"
getrandom = "0.3"
rand = "0.9"
