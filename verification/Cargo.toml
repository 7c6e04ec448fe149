[package]
name = "codex_realtime"
version = "0.1.0"
edition = "2021"
publish = false

[dependencies]
libwebrtc = "*"
thiserror = "*"
tracing = "*"
