[package]
name = "khan"
version = "0.1.0"
edition = "2021"
publish = false

[dependencies]
bitflags = "1"
clap = { version = "3", features = ["derive"] }
log = "0.4"
vampirc-uci = "*"
