[package]
name = "clapping_music"
version = "0.1.0"
edition = "2021"
publish = false

[dependencies]
midir = "*"
rimd = "*"

[dev-dependencies]
pitch_calc = "*"
