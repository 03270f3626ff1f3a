[package]
name = "vppmake"
version = "0.1.0"
edition = "2021"
publish = false

[dependencies]
ahash = "=0.8.12"
smallvec = "=1.16.4"
scraper = "=0.29.0"
anyhow = "=1.0.104"
clap = { version = "=4.6.7", features = ["derive"] }
fs-err = { version = "=3.3.2", features = ["tokio"] }
tokio = { version = "=1.54.1", features = ["macros", "rt-multi-thread", "sync"] }
toml = "=1.1.8"
toml_edit = "=0.25.18"
serde = { version = "=1.0.229", features = ["derive"] }
reqwest = { version = "=0.13.5", default-features = false }
rustemon = "=4.8.0"
