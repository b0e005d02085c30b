[package]
name = "ilp_cli"
version = "0.1.0"
edition = "2021"
publish = false

[dependencies]
clap = "4"
reqwest = { version = "0.12", default-features = false, features = ["blocking", "json"] }
