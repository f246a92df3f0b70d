[package]
name = "e2e"
version = "0.1.0"
edition = "2021"
publish = false

[dependencies]
anyhow = "=1.0.104"
async-trait = "=0.1.92"
clap = { version = "=4.6.7", features = ["derive"] }
console = "=0.16.6"
futures = "=0.3.34"
regex = "=1.13.1"
thiserror = "=2.0.21"
tokio = { version = "=1.54.1", features = ["time"] }
