[package]
name = "kaizen"
version = "0.1.0"
edition = "2021"
publish = false

[dependencies]
url = "=2.5.8"
uuid = { version = "=1.29.0", features = ["v4"] }
actix-web = "=4.18.1"
actix-identity = "=0.4.0"
actix-cors = "=0.6.5"
sqlx = { version = "=0.7.4", default-features = false, features = ["postgres", "runtime-tokio", "time", "uuid"] }
serde = { version = "=1.0.229", features = ["derive"] }
serde_json = "=1.0.154"
futures = "=0.3.34"
argon2 = "0.5"
