[package]
name = "stack"
version = "0.1.0"
edition = "2021"
publish = false

[dependencies]
clap = "=2.34.0"
futures = "=0.1.31"
git2 = { version = "=0.21.0", features = ["ssh", "https"] }
hubcaps = "=0.5.0"
tempfile = "=3.27.0"
tokio-core = "=0.1.18"

[dev-dependencies]
regex = "1"
