[package]
name = "build_sbf"
version = "0.1.0"
edition = "2021"
publish = false

[dependencies]
agave-logger = { version = "=3.1.14", features = ["agave-unstable-api"] }
cargo_metadata = "=0.15.4"
clap = { version = "=3.2.25", features = ["cargo", "env"] }
log = "=0.4.35"
