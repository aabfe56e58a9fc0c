[package]
name = "exchangerate"
version = "0.1.0"
edition = "2021"
publish = false

[dependencies]
async-trait = "*"
chrono = { version = "0.4", features = ["serde"] }
clap = { version = "*", features = ["derive"] }
colored = "*"
dirs = "*"
once_cell = "*"
prettytable-rs = "*"
reqwest = { version = "*", default-features = false, features = ["json", "rustls-tls"] }
rusqlite = { version = "*", features = ["bundled"] }
serde = { version = "*", features = ["derive"] }
serde_json = "*"
thiserror = "*"
tokio = { version = "*", features = ["macros", "rt-multi-thread"] }
