[package]
name = "codedoc"
version = "0.1.0"
edition = "2021"
publish = false

[dependencies]
content_inspector = "*"
ignore = "*"
clap = { version = "*", features = ["derive"] }
arboard = "*"
