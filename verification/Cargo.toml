[package]
name = "ani_cli"
version = "0.1.0"
edition = "2021"
publish = false

[dependencies]
anyhow = "1"
clap = { version = "4", features = ["derive"] }
indicatif = "0.17"
jikan-rs = "*"
reqwest = "0.12"
sqlx = { version = "0.8", default-features = false, features = ["sqlite", "runtime-tokio", "derive"] }
tokio = { version = "1", features = ["fs", "macros", "rt-multi-thread", "time"] }
