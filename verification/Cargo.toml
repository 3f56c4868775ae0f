[package]
name = "flow_field"
version = "0.1.0"
edition = "2021"
publish = false

[dependencies]
chrono = "0.4"
itertools = "0.12"
rand_chacha = "0.3"
