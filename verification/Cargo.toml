[package]
name = "tiny_tokio_actor"
version = "0.1.0"
edition = "2021"
publish = false

[dependencies]
tokio = { version = "1", features = ["sync", "rt", "rt-multi-thread", "macros", "time"] }
async-channel = "2"
async-trait = "0.1"
log = "0.4"
syn = "2"
quote = "1"
proc-macro2 = "1"
