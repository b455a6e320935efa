[package]
name = "zola_abridge_helper"
version = "0.1.0"
edition = "2021"
publish = false

[dependencies]
anyhow = "=1.0.104"
cargo-util = "=0.2.16"
clap = { version = "=4.6.7", features = ["derive"] }
toml_edit = "=0.25.15"
tracing = "=0.1.44"
tracing-subscriber = { version = "=0.3.23", features = ["env-filter"] }
version-control-clean-check = "=0.1.4"
