[package]
name = "welog_rs"
version = "0.1.0"
edition = "2021"
publish = false

[dependencies]
axum = { version = "0.8", features = ["macros", "json"] }
base64 = "0.22"
bytes = "1"
chrono = "0.4"
http = "1"
once_cell = "1"
parking_lot = "0.12"
serde = { version = "1", features = ["derive"] }
serde_json = "1"
tokio = { version = "1", features = ["full"] }
tonic = { version = "0.12", features = ["transport"] }
tower = { version = "0.5", features = ["util"] }
ureq = { version = "3", features = ["json"] }
uuid = { version = "1", features = ["v4"] }
whoami = "2"
