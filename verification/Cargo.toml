[package]
name = "afk"
version = "0.1.0"
edition = "2021"
publish = false

[dependencies]
rand = "0.8"
enigo = "0.1"
structopt = "0.3"
