[package]
name = "term_navigator"
version = "0.1.0"
edition = "2021"
publish = false

[dependencies]
clap = { version = "*", features = ["derive"] }
console = "*"
dialoguer = { version = "*", features = ["fuzzy-select"] }
