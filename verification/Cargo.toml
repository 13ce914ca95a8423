[package]
name = "trail_stats"
version = "0.1.0"
edition = "2021"
publish = false

[dependencies]
serde = { version = "=1.0.229", features = ["derive"] }
candid = "*"
ic-cdk = "=0.19.0"
junobuild-macros = "=0.4.1"
junobuild-satellite = { version = "=0.6.2", default-features = false, features = ["on_set_doc"] }
junobuild-utils = "=0.4.0"
