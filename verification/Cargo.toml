[package]
name = "preprocessing"
version = "0.1.0"
edition = "2021"
publish = false

[dependencies]
clap = { version = "=4.6.7", features = ["derive"] }
flate2 = "=1.1.10"
shakmaty = "=0.29.4"
tar = "=0.4.46"
