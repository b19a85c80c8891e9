[package]
name = "generic_timer"
version = "0.1.0"
edition = "2021"

[dependencies]
aarch64 = "*"
volatile = "0.3"
