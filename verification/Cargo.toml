[package]
name = "mylm_core"
version = "0.1.0"
edition = "2021"
publish = false

[dependencies]
regex = "=1.13.1"
serde = { version = "=1.0.229", features = ["derive"] }
serde_json = "=1.0.154"
toml = "=1.1.8"
dirs = "=7.0.0"
uuid = { version = "=1.29.0", features = ["v4"] }
chrono = "=0.4.45"
shell-words = "=1.1.1"
urlencoding = "=2.1.3"
rand = "=0.8.8"
sysinfo = "=0.30.13"
tera = { version = "1", default-features = false }
