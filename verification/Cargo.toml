[package]
name = "emerald_core"
version = "0.1.0"
edition = "2021"
publish = false

[dependencies]
goblin = "0.8"
