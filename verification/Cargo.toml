[package]
name = "mdns_probe"
version = "0.1.0"
edition = "2021"
publish = false

[dependencies]
simple-dns = "*"
net2 = "*"
anyhow = "*"
