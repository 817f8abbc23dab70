[package]
name = "todo_md_rs"
version = "0.1.0"
edition = "2021"
publish = false

[dependencies]
chrono = { version = "0.4", default-features = false, features = ["std"] }
clap = { version = "4", features = ["derive"] }
colored = "2"
dirs = "5"
regex = "1"
serde = { version = "1", features = ["derive"] }
toml = "0.8"
