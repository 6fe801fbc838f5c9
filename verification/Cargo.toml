[package]
name = "reqtrace"
version = "0.1.0"
edition = "2021"
publish = false

[dependencies]
git2 = { version = "*", default-features = false }
serde = { version = "*", features = ["derive"] }

[dev-dependencies]
tempfile = "*"
fs-err = "*"
