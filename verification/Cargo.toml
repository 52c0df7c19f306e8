[package]
name = "sentry_core"
version = "0.1.0"
edition = "2021"
publish = false

[dependencies]
sentry-types = "*"

[dev-dependencies]
anyhow = "*"
failure = "*"
