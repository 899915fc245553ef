[package]
name = "hx711"
version = "0.1.0"
edition = "2021"
publish = false

[dependencies]
critical-section = { version = "=1.2.0", features = ["std"] }
embedded-hal = { version = "=0.2.7", features = ["unproven"] }
nb = "=1.1.0"
