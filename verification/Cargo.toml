[package]
name = "windsend_utils"
version = "0.1.0"
edition = "2021"
publish = false

[dependencies]
encoding = "0.2"
home = "0.5"
notify-rust = "4"
subslice = "0.2"
tracing = "0.1"
