[package]
name = "theseeker_game"
version = "0.1.0"
edition = "2021"
publish = false

[dependencies]
unic-langid = "0.9"
bevy = { version = "0.16", default-features = false }
rand = "0.8"
