[package]
name = "ring"
version = "0.1.0"
edition = "2021"
publish = false

[dependencies]
libc = "0.2"
clap = { version = "4", features = ["derive"] }
console = "*"
ctrlc = "3"
serde = { version = "1", features = ["derive"] }
serde_json = "1"
