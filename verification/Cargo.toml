[package]
name = "workflow_checks"
version = "0.1.0"
edition = "2021"
publish = false

[dependencies]
clap_builder = { version = "=4.6.7", default-features = false, features = ["std", "help", "usage", "wrap_help"] }
public-api = { version = "=0.52.2", default-features = false }
rustdoc-json = "=0.9.10"
