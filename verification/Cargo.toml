[package]
name = "zuuid"
version = "0.1.0"
edition = "2021"
publish = false

[dependencies]
clap = "4"
uuid = { version = "1", features = ["v4", "v7"] }
