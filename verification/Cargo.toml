[package]
name = "tool_library"
version = "0.1.0"
edition = "2021"
publish = false

[dependencies]
hdi = "0.5"
hdk = "0.4"
serde = { version = "1", features = ["derive"] }
