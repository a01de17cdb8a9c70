[package]
name = "secmon"
version = "0.1.0"
edition = "2021"
publish = false

[dependencies]
anyhow = "*"
chrono = "*"
chrono-tz = "*"
colored = "*"
crossbeam-channel = "*"
gethostname = "*"
postcard = { version = "*", features = ["use-std"] }
serde = { version = "*", features = ["derive"] }
serde_json = "*"
shlex = "*"
users = "*"
ureq = { version = "*", features = ["json"] }
frankenstein = { version = "*", features = ["client-ureq"] }
actix-web = "*"
actix-ws = "*"
tokio = { version = "*", features = ["sync", "rt"] }
