[package]
name = "fm_synth"
version = "0.1.0"
edition = "2021"
publish = false

[dependencies]
cpal = "0.13"
dasp = { version = "0.11", features = ["signal"] }
