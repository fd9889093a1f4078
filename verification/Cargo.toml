[package]
name = "gosub_vello"
version = "0.1.0"
edition = "2021"
publish = false

[dependencies]
cow-utils = "0.1"
vello = "0.5"
futures = "0.3"
anyhow = "1"
