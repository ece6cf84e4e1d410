[package]
name = "j4i2prs"
version = "0.1.0"
edition = "2021"
publish = false

[dependencies]
hex = "*"
rand = "*"
j4rs = "*"
log = "*"
thiserror = "*"
