[package]
name = "waffle"
version = "0.1.0"
edition = "2021"
publish = false

[dependencies]
ansi_term = "0.12"
clap = { version = "4", features = ["derive"] }
similar = "2"
toml_edit = "0.22"
