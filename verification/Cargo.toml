[package]
name = "estan"
version = "0.1.0"
edition = "2021"
publish = false

[dependencies]
anyhow = "*"
chrono = "=0.4.45"
dirs = "*"
md5 = "=0.8.1"
reqwest = { version = "=0.13.5", default-features = false, features = ["blocking", "multipart", "json", "form"] }
serde = { version = "*", features = ["derive"] }
serde_json = "=1.0.151"
tar = "*"
toml = "*"
tracing = "*"
tracing-subscriber = "*"
zstd = "*"
