[package]
name = "interval_bakeoff"
version = "0.1.0"
edition = "2021"
publish = false

[dependencies]
bio = "*"
clap = "2"
coitrees = "*"
cpu-time = "1"
nested_intervals = "*"
rand = "0.8"
rust-lapper = "*"
