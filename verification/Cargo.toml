[package]
name = "starsoldier_visualize"
version = "0.1.0"
edition = "2021"
publish = false

[dependencies]
image = { version = "=0.25.10", default-features = false, features = ["png"] }
eyre = "=0.6.14"
structopt = "=0.3.26"
itertools = "=0.14.0"
