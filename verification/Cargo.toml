[package]
name = "dcf77_clock"
version = "0.1.0"
edition = "2021"
publish = false

[dependencies]
dcf77 = "*"
chrono = "*"
