[package]
name = "tro"
version = "0.1.0"
edition = "2021"
publish = false

[dependencies]
regex = "=1.13.1"
unicode-width = "=0.2.2"
url = "=2.5.8"
reqwest = { version = "*", default-features = false, features = ["blocking", "json", "multipart", "rustls-tls"] }
serde = { version = "*", features = ["derive"] }
toml = "*"
dirs = "*"
clap = "*"
colored = "*"
dialoguer = "*"
rustyline = "*"
tempfile = "*"
log = "*"
simplelog = "*"
ctrlc = "*"
anyhow = "*"
thiserror = "*"
