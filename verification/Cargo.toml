[package]
name = "quotail"
version = "0.1.0"
edition = "2021"
publish = false

[dependencies]
chrono = "0.4"
serde = { version = "1", features = ["derive"] }
serde_json = "1"
toml = "0.8"
toml_edit = "0.22"
anyhow = "1"
thiserror = "2"
directories = "6"
tokio = { version = "1", features = ["full"] }
async-trait = "0.1"
dashmap = "6"
governor = "0.10"
reqwest = { version = "0.12", default-features = false, features = ["json", "cookies", "rustls-tls"] }
ratatui = "0.29"
crossterm = "0.28"
rmcp = { version = "*", features = ["server", "transport-io", "macros"] }
