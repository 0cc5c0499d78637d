[package]
name = "cross_section"
version = "0.1.0"
edition = "2021"

[dependencies]
anyhow = "1"
num-complex = "0.4"
num-traits = "0.2"
