[package]
name = "spring_tui"
version = "0.1.0"
edition = "2021"
publish = false

[dependencies]
anyhow = "*"
clap = { version = "*", features = ["derive"] }
crossterm = "*"
ratatui = "*"
reqwest = { version = "*", default-features = false, features = ["json"] }
serde = { version = "*", features = ["derive"] }
serde_json = "*"
serde_yaml = "*"
tokio = { version = "*", features = ["macros", "rt-multi-thread", "time"] }
toml = "*"
zip = { version = "*", default-features = false, features = ["deflate"] }
