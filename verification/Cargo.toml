[package]
name = "adi_ultrasonic"
version = "0.1.0"
edition = "2021"
publish = false

[dependencies]
pros-sys = "*"
