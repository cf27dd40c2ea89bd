[package]
name = "tftp_client"
version = "0.1.0"
edition = "2021"
publish = false

[dependencies]
mio = "=0.6.23"
rotor = "=0.6.3"
