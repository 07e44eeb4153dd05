[package]
name = "resonix_core"
version = "0.1.0"
edition = "2021"
publish = false

[dependencies]
ringbuf = "0.4"
cpal = "0.16"
symphonia = "0.5"
