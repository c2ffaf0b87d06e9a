[package]
name = "simple_scheduler"
version = "0.1.0"
edition = "2021"
publish = false

[dependencies]
cfg-if = "1"
log = "0.4"
