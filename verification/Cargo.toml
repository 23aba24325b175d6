[package]
name = "langfuse_cli"
version = "0.1.0"
edition = "2021"
publish = false

[dependencies]
tabled = "=0.22.0"
anyhow = "=1.0.104"
clap = { version = "=4.6.7", features = ["derive", "env"] }
dialoguer = "=0.12.0"
directories = "=6.0.0"
dirs = "=7.0.0"
dotenvy = "=0.15.7"
reqwest = { version = "=0.13.5", default-features = false, features = ["json", "query"] }
serde = { version = "=1.0.229", features = ["derive"] }
serde_json = "=1.0.151"
serde_yaml = "=0.9.34"
thiserror = "=2.0.21"
tokio = { version = "=1.53.2", features = ["macros", "rt-multi-thread"] }
