[package]
name = "asr_capi"
version = "0.1.0"
edition = "2021"
publish = false

[dependencies]
livesplit-auto-splitting = "*"
