[package]
name = "diol_cbind"
version = "0.1.0"
edition = "2021"
publish = false

[dependencies]
diol = "=0.13.1"
equator = "=0.2.2"
easy-cast = "=0.5.4"
