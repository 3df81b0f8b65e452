[package]
name = "image2unicodeart"
version = "0.1.0"
edition = "2021"
publish = false

[dependencies]
image = "0.24"
reqwest = { version = "0.11", default-features = false, features = ["blocking"] }
clap = { version = "4", features = ["derive"] }
