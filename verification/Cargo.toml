[package]
name = "pkg_manifest"
version = "0.1.0"
edition = "2021"
publish = false

[dependencies]
semver = "0.6"
url = "1.7"
toml = "0.5"
serde = { version = "1", features = ["derive"] }
serde_ignored = "0.1"
