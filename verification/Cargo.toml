[package]
name = "authflow"
version = "0.1.0"
edition = "2021"
publish = false

[dependencies]
argon2 = "0.5"
jsonwebtoken = "9"
rand = "0.8"
chrono = "0.4"
serde = { version = "1", features = ["derive"] }
serde_json = "1"
axum = "*"
axum-extra = { version = "*", features = ["cookie"] }
tokio = { version = "1", features = ["macros", "rt-multi-thread"] }
tower-http = { version = "*", features = ["cors"] }
lettre = { version = "*", default-features = false, features = ["smtp-transport", "builder"] }
dotenv = "*"
anyhow = "1"
