[package]
name = "hisi_hal"
version = "0.7.0"
edition = "2021"
publish = false

[dependencies]
ws63-pac = "*"
embedded-hal = "1.0"
embedded-hal-nb = "1.0"
embedded-io = "0.6"
nb = "1.1"
critical-section = "1.2"
portable-atomic = "1"
embedded-dma = "0.2"
