[package]
name = "workmate"
version = "0.1.0"
edition = "2021"
publish = false

[dependencies]
clap = { version = "3", features = ["derive"] }
log = "0.4"
mouse-rs = "*"
