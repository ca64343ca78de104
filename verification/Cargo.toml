[package]
name = "planetgen"
version = "0.1.0"
edition = "2021"
publish = false

[dependencies]
byteorder = "*"
clap = "*"
image = { version = "*", default-features = false, features = ["png"] }
noise = "*"
