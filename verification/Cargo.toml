[package]
name = "slink"
version = "0.1.0"
edition = "2021"
publish = false

[dependencies]
isatty = "0.1"
structopt = "0.3"
xdg = "2"
