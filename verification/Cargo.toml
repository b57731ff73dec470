[package]
name = "mpd_client"
version = "0.1.0"
edition = "2021"
publish = false

[dependencies]
mpd_protocol = "*"
