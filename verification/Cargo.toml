[package]
name = "inmonea_backend"
version = "0.1.0"
edition = "2021"
publish = false

[dependencies]
chrono = { version = "0.4", default-features = false, features = ["std", "clock", "serde"] }
rust_decimal = { version = "1", features = ["serde"] }
uuid = { version = "1", features = ["v4", "serde"] }
sha2 = "0.10"
hex = "0.4"
rand = "0.8"
csv = "1"
base64 = "0.21"
serde = { version = "1", features = ["derive"] }
serde_json = "1"
tokio = { version = "1", features = ["rt-multi-thread", "macros"] }
tracing = "0.1"
axum = "0.7"
sqlx = { version = "0.8", default-features = false, features = ["postgres", "runtime-tokio", "uuid", "chrono", "rust_decimal", "json", "derive"] }
reqwest = { version = "0.12", default-features = false, features = ["json"] }
redis = { version = "0.25", default-features = false, features = ["tokio-comp"] }
oauth2 = { version = "5", default-features = false, features = ["reqwest"] }
utoipa = "4"
