[package]
name = "jvm_tui"
version = "0.1.0"
edition = "2021"
publish = false

[dependencies]
chrono = "0.4"
tokio = { version = "1", features = ["rt-multi-thread", "macros", "process", "time", "sync"] }
serde = { version = "1", features = ["derive"] }
serde_json = "1"
toml = "0.8"
reqwest = { version = "0.12", default-features = false, features = ["json"] }
async-ssh2-tokio = "0.8"
async-trait = "0.1"
shellexpand = "3"
dirs = "5"
directories = "5"
humantime = "2"
