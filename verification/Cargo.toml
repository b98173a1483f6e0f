[package]
name = "langtons_ant"
version = "0.1.0"
edition = "2021"
publish = false

[dependencies]
float-cmp = "*"
rand = "0.8"
