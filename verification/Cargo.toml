[package]
name = "valmonitor"
version = "0.1.0"
edition = "2021"
publish = false

[dependencies]
base64 = "*"
urlencoding = "*"
serde = { version = "*", features = ["derive"] }
serde_json = "*"
reqwest = { version = "*", default-features = false, features = ["json", "rustls-tls"] }
tokio = { version = "*", features = ["rt-multi-thread", "macros", "time", "sync"] }
log = "*"
tracing = "*"
thiserror = "*"
once_cell = "*"
bytes = "*"
discord-rich-presence = "*"
directories = "*"
