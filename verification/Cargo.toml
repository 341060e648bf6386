[package]
name = "easy_envar"
version = "0.1.0"
edition = "2021"
publish = false

[dependencies]
dotenvy = "0.15"
