[package]
name = "tenant_auth"
version = "0.1.0"
edition = "2021"
publish = false

[dependencies]
async-trait = "=0.1.92"
axum = "=0.8.9"
chrono = "=0.4.45"
jsonwebtoken = "=9.3.1"
rbatis = "=4.9.8"
rbdc-mysql = "*"
rbs = "=4.8.4"
serde = { version = "=1.0.229", features = ["derive"] }
serde_json = "=1.0.154"
tokio = { version = "=1.54.1", features = ["macros", "net", "rt-multi-thread"] }
tower-http = { version = "=0.7.1", features = ["auth"] }
uuid = { version = "=1.29.0", features = ["v4"] }
validator = { version = "=0.21.0", features = ["derive"] }
