[package]
name = "teritorimon"
version = "0.1.0"
edition = "2021"
publish = false

[dependencies]
anyhow = "=1.0.104"
duration-str = "=0.21.0"
futures = "=0.3.34"
once_cell = "=1.21.4"
serde = { version = "=1.0.229", features = ["derive"] }
sha2 = "=0.11.0"
structopt = "=0.3.26"
subtle-encoding = { version = "=0.5.1", features = ["bech32-preview"] }
thiserror = "=2.0.21"
tokio = { version = "=1.53.2", features = ["full"] }
toml = "=1.1.7"
