[package]
name = "serialization_derive"
version = "0.1.0"
edition = "2021"
publish = false

[dependencies]
quote = "0.3.15"
syn = "0.11.11"
