[package]
name = "photofinish"
version = "0.1.0"
edition = "2021"
publish = false

[dependencies]
toml = "0.5"
clap = "2"
tokio = { version = "1", features = ["macros", "rt-multi-thread"] }
reqwest = { version = "*", default-features = false }
