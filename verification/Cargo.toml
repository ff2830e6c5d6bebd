[package]
name = "wttr"
version = "0.1.0"
edition = "2021"
publish = false

[dependencies]
getopts = "*"
hyper = "0.10"
rustc-serialize = "*"
term = "*"
time = "0.3"
