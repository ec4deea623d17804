[package]
name = "binarystars"
version = "0.1.0"
edition = "2021"
publish = false

[dependencies]
base64 = "0.22"
hostname = "0.4"
if-addrs = "0.13"
rand = "0.8"
reqwest = { version = "0.12", default-features = false, features = ["blocking", "json", "rustls-tls"] }
serde = { version = "1", features = ["derive"] }
sha2 = "0.10"
sysinfo = "0.30"
url = "2"
urlencoding = "2"
webbrowser = "1"
