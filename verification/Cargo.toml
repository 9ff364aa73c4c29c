[package]
name = "api_lib"
version = "0.1.0"
edition = "2021"
publish = false

[dependencies]
uuid = { version = "1", features = ["v4", "serde"] }
chrono = { version = "0.4", features = ["serde"] }
serde = { version = "1", features = ["derive"] }
actix-web = "4"
actix-files = "0.6"
tracing = "0.1"
sqlx = { version = "0.8", default-features = false, features = ["runtime-tokio", "postgres", "uuid", "chrono"] }
shuttle-runtime = "*"
shuttle-actix-web = "*"
shuttle-shared-db = { version = "*", features = ["postgres", "sqlx"] }
