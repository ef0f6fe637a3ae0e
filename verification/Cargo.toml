[package]
name = "sd"
version = "0.1.0"
edition = "2021"
publish = false

[dependencies]
regex = "1"
memmap = "0.7"
rayon = "1"
structopt = "0.3"
tempfile = "3"
