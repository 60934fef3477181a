[package]
name = "content_core"
version = "0.1.0"
edition = "2021"
publish = false

[dependencies]
hmac = "0.12"
sha2 = "0.10"
base64 = "0.22"
infer = "*"
http = "1"
chrono = { version = "0.4", default-features = false, features = ["clock"] }
serde_qs = "*"
serde = { version = "1", features = ["derive"] }
axum = "0.8"
tokio = { version = "1", features = ["macros", "rt-multi-thread", "net"] }
tower-http = { version = "*", features = ["cors"] }
clap = { version = "4", features = ["derive", "env"] }
dotenv = "0.15"
thiserror = "*"
tracing = "0.1"
utoipa = "*"
utoipa-scalar = { version = "*", features = ["axum"] }
aws-config = "1"
aws-sdk-s3 = "1"
anyhow = "1"
reqwest = { version = "*", default-features = false, features = ["blocking"] }
