[package]
name = "grip_grab"
version = "0.1.0"
edition = "2021"
publish = false

[dependencies]
grep = "*"
crossbeam = "*"
ignore = "*"
clap = { version = "*", features = ["derive"] }
termcolor = "*"
serde = { version = "*", features = ["derive"] }
serde_json = "*"
