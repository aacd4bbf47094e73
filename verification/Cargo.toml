[package]
name = "resource_catalog"
version = "0.1.0"
edition = "2021"
publish = false

[dependencies]
axum = "*"
config = { version = "*", default-features = false, features = ["toml"] }
serde = { version = "*", features = ["derive"] }
serde_json = "*"
sqlx = { version = "*", default-features = false, features = ["postgres", "runtime-tokio"] }
tokio = { version = "*", features = ["macros", "rt-multi-thread", "net"] }
tracing = "*"
tracing-subscriber = "*"
