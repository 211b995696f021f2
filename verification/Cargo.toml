[package]
name = "canctl"
version = "0.1.0"
edition = "2021"
publish = false

[dependencies]
candid = "*"
clap = { version = "*", features = ["derive"] }
tokio = { version = "*", features = ["macros", "rt-multi-thread"] }
async-trait = "*"
anyhow = "*"
thiserror = "*"
ic-agent = { version = "*", default-features = false }
