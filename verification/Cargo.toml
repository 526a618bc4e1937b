[package]
name = "pdf_highlight"
version = "0.1.0"
edition = "2021"
publish = false

[dependencies]
lopdf = "*"
clap = { version = "*", features = ["derive"] }
