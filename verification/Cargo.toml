[package]
name = "deno_bootstrap"
version = "0.1.0"
edition = "2021"
publish = false

[dependencies]
deno_terminal = "*"
deno_features = "*"
serde = { version = "*", features = ["derive"] }
