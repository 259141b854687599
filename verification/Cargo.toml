[package]
name = "verex"
version = "0.2.2"
edition = "2021"

[dependencies]
regex = "1"
