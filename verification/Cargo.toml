[package]
name = "clap_audio_ports"
version = "0.1.0"
edition = "2021"
publish = false

[dependencies]
clap-sys = "*"
