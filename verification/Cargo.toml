[package]
name = "cng4"
version = "0.1.0"
edition = "2021"
publish = false

[dependencies]
shell-words = "1"
base64 = "0.22"
sha2 = "0.10"
hex = "0.4"
unicode-width = "*"
chrono = "0.4"
figlet-rs = "*"
rand = "0.9"
tokio = { version = "1", features = ["full"] }
ratatui = "*"
clap = { version = "4", features = ["derive"] }
serde = { version = "1", features = ["derive"] }
serde_json = "1"
toml = "*"
colored = "*"
anyhow = "1"
async-trait = "0.1"
reqwest = { version = "0.12", default-features = false, features = ["json", "rustls-tls"] }
rumqttc = { version = "0.24", default-features = false }
actix-web = { version = "4", default-features = false, features = ["macros"] }
sysinfo = "*"
walkdir = "2"
wol-rs = "*"
surge-ping = "*"
filetime = "0.2"
