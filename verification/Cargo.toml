[package]
name = "coursetrack"
version = "0.1.0"
edition = "2021"
publish = false

[dependencies]
axum = "*"
axum-extra = { version = "*", features = ["typed-header"] }
base64 = "*"
chrono = { version = "*", features = ["serde"] }
csv = "*"
git2 = "*"
jsonwebtoken = "*"
serde = { version = "*", features = ["derive"] }
serde_json = "*"
tokio = { version = "*", features = ["macros", "net", "rt-multi-thread"] }
tower-http = { version = "*", features = ["cors"] }
walkdir = "*"
