[package]
name = "les_nes"
version = "0.1.0"
edition = "2021"
publish = false

[dependencies]
bit_field = "0.10"
crossbeam-channel = "0.5"
crossbeam-queue = "0.3"
