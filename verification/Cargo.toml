[package]
name = "bup"
version = "0.1.0"
edition = "2021"

[dependencies]
rodio = "0.19"
