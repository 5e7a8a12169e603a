[package]
name = "lucid_noir"
version = "0.1.0"
edition = "2021"
publish = false

[dependencies]
log = "0.4"
simplelog = "0.12"
walkdir = "2"
