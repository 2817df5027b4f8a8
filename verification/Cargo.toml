[package]
name = "rmst_tools"
version = "0.1.0"
edition = "2021"
publish = false

[dependencies]
rand = "=0.8.5"
url = "=2.5.8"
serde = { version = "1", features = ["derive"] }
serde_json = "1"
log = "0.4"
thiserror = "1"
tokio = { version = "1", features = ["rt", "time", "process", "macros"] }
reqwest = "0.12"
image = "0.25"
enigo = "0.6"
winreg = "0.55"
