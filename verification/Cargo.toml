[package]
name = "clic"
version = "0.1.0"
edition = "2021"
publish = false

[dependencies]
meval = "0.2"
directories = "*"
colored = "*"
rustyline = "*"
serde = { version = "1", features = ["derive"] }
serde_json = "1"
