[package]
name = "check_ethernet"
version = "0.2.1"
edition = "2021"
publish = false

[dependencies]
getopts = "*"
ipnetwork = "*"
pnet = "*"
