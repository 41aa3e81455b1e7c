[package]
name = "webrtc_harness"
version = "0.1.0"
edition = "2021"
publish = false
