[package]
name = "nestr_cli"
version = "0.1.0"
edition = "2021"
publish = false

[dependencies]
anyhow = "=1.0.104"
base64 = "=0.23.1"
clap = { version = "=4.6.7", features = ["derive", "env"] }
colored = "=3.1.1"
dirs = "=7.0.0"
htmlize = { version = "=1.1.0", features = ["unescape"] }
inquire = "=0.9.4"
keyring = "=4.2.0"
open = "=5.4.5"
rand = "=0.10.3"
reqwest = { version = "=0.13.5", default-features = false, features = ["json", "form", "query", "rustls-no-provider"] }
rustls = { version = "=0.23.46", default-features = false, features = ["ring", "std"] }
serde = { version = "=1.0.229", features = ["derive"] }
serde_json = "=1.0.154"
sha2 = "=0.11.1"
tabled = "=0.22.0"
thiserror = "=2.0.21"
tokio = { version = "=1.54.1", features = ["rt-multi-thread", "macros", "time", "sync"] }
toml = "=1.1.8"
url = "=2.5.8"
