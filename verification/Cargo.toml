[package]
name = "boiler"
version = "1.0.0"
edition = "2021"
publish = false

[dependencies]
clap = { version = "=3.0.0-beta.5", default-features = false, features = ["std"] }
