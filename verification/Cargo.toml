[package]
name = "smart_pet_door"
version = "0.1.0"
edition = "2021"
publish = false

[dependencies]
chrono = "*"
rand = "*"
