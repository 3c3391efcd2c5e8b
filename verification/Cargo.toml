[package]
name = "yi"
version = "0.3.0"
edition = "2021"
publish = false

[dependencies]
anchor-lang = "0.24"
anchor-spl = "0.24"
num-traits = "0.2"
vipers = "2"
