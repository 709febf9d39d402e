[package]
name = "voice_join"
version = "0.1.0"
edition = "2021"
publish = false

[dependencies]
futures = "0.3"
serenity = "0.10"
twilight-gateway = "0.5"
