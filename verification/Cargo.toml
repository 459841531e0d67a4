[package]
name = "branded"
version = "0.1.0"
edition = "2021"
publish = false

[dependencies]
proc-macro2 = "=1.0.107"
quote = "=1.0.47"
syn = { version = "=2.0.119", features = ["full"] }

[dev-dependencies]
serde = "=1.0.229"
serde_json = "=1.0.154"
sqlx = { version = "0.8", default-features = false, features = ["sqlite"] }
uuid = { version = "=1.29.0", features = ["v4"] }
