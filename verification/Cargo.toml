[package]
name = "cc2538_hal"
version = "0.1.0"
edition = "2021"
publish = false

[dependencies]
cc2538-pac = "*"
cortex-m = "*"
