[package]
name = "what_may_become"
version = "0.1.0"
edition = "2021"
publish = false

[dependencies]
spacetimedb = "1"
log = "0.4"
