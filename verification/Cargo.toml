[package]
name = "cargo-llvm-cov"
version = "0.1.0"
edition = "2021"
publish = false

[dependencies]
anyhow = "1"
camino = "1"
cargo_metadata = "0.13"
glob = "0.3"
is_executable = "1"
open = "1"
serde = { version = "1", features = ["derive"] }
serde_json = "1"
structopt = "0.3"
