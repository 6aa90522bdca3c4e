[package]
name = "greeter"
version = "0.1.0"
edition = "2021"
publish = false

[dependencies]
slug = "*"
tera = "*"
actix-web = "*"
actix-files = "*"
serde = { version = "*", features = ["derive"] }
