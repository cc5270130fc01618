[package]
name = "private_pay"
version = "0.1.0"
edition = "2021"
publish = false

[dependencies]
anchor-lang = "=0.32.2"
arcium-anchor = "=0.9.7"
