[package]
name = "typed_enum"
version = "0.1.0"
edition = "2021"
publish = false

[dependencies]
serde = { version = "1", features = ["derive"] }
sway-ast = "*"
sway-error = "*"
sway-types = "*"
