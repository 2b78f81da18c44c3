[package]
name = "suiforge"
version = "0.1.0"
edition = "2021"
publish = false

[dependencies]
sha2 = "*"
hex = "*"
clap = { version = "*", features = ["derive"] }
colored = "*"
serde = { version = "*", features = ["derive"] }
serde_json = "*"
chrono = "*"
tokio = { version = "*", features = ["macros", "rt-multi-thread", "time"] }
reqwest = { version = "*", default-features = false, features = ["json"] }
walkdir = "*"
which = "*"
home = "*"
indicatif = "*"
thiserror = "*"
toml = "*"
notify = "*"
