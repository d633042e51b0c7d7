[package]
name = "sunflower"
version = "0.1.0"
edition = "2021"
publish = false

[dependencies]
clap = { version = "=3.2.25", features = ["derive"] }
printpdf = "=0.6.0"
svg = "=0.18.0"
