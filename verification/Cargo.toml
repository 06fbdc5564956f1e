[package]
name = "fmeda_engine"
version = "0.1.0"
edition = "2021"
publish = false

[dependencies]
axum = "*"
bigdecimal = { version = "*", features = ["serde"] }
chrono = { version = "*", features = ["serde"] }
dotenv = "*"
itertools = "*"
serde = { version = "*", features = ["derive"] }
serde_json = "*"
sqlx = { version = "*", default-features = false, features = ["postgres", "runtime-tokio", "derive", "json", "uuid", "chrono", "bigdecimal"] }
thiserror = "*"
tokio = { version = "*", features = ["macros", "rt-multi-thread"] }
uuid = { version = "*", features = ["serde"] }
