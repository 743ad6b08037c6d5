[package]
name = "term_chat"
version = "0.1.0"
edition = "2021"
publish = false

[dependencies]
actix-web = { version = "=4.18.1", default-features = false, features = ["macros"] }
clap = { version = "=4.6.7", features = ["derive"] }
crossterm = "=0.27.0"
futures = "=0.3.34"
ratatui = "=0.26.3"
reqwest = { version = "=0.12.28", default-features = false, features = ["json"] }
serde = { version = "=1.0.229", features = ["derive"] }
sqlx = { version = "=0.7.4", default-features = false, features = ["runtime-tokio", "sqlite", "migrate"] }
tokio = { version = "=1.54.1", features = ["macros", "rt-multi-thread", "sync", "time"] }

[dev-dependencies]
serde_json = "1"
