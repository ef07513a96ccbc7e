[package]
name = "pickme"
version = "0.1.0"
edition = "2021"
publish = false

[dependencies]
hex = "=0.4.3"
image = { version = "=0.24.9", default-features = false, features = ["png"] }
termcolor = "=1.4.1"
device_query = "=1.1.3"
cli-clipboard = "=0.4.0"
serde = { version = "1", features = ["derive"] }
toml = "=0.5.11"
