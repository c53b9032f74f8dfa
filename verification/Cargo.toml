[package]
name = "midi_recorder"
version = "0.1.0"
edition = "2021"
publish = false

[dependencies]
chrono = { version = "0.4", default-features = false, features = ["clock", "std"] }
clap = "4"
midir = "*"
midly = { version = "0.5", default-features = false, features = ["std", "alloc"] }
signal-hook = "0.3"
