[package]
name = "pacstall"
version = "0.1.0"
edition = "2021"
publish = false

[dependencies]
anyhow = "1"
brush-core = "=0.3.5"
clap = { version = "4", features = ["derive", "cargo"] }
cli-prompts = "0.1.1"
colored = "=3.1.1"
libpacstall = "=0.8.1"
reqwest = { version = "=0.12.28", features = ["blocking"] }
spinoff = "*"
thiserror = "=2.0.21"
tokio = { version = "1", features = ["rt", "macros"] }
url = "2"
