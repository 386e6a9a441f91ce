[package]
name = "autolock"
version = "0.1.0"
edition = "2021"

[dependencies]
zellij-tile = "*"
