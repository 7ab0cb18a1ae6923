[package]
name = "ortholinear"
version = "0.1.0"
edition = "2021"
publish = false

[dependencies]
chrono = "0.4"
nucleo-matcher = "0.3"
pulldown-cmark = { version = "0.12", default-features = false }
ratatui = "0.29"
crossterm = "0.28"
tokio = { version = "1", features = ["macros", "rt-multi-thread"] }
reqwest = { version = "0.12", default-features = false, features = ["json", "rustls-tls"] }
serde = { version = "1", features = ["derive"] }
serde_json = "1"
toml = "0.8"
dirs = "5"
open = "5"
thiserror = "2"
