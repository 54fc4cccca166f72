[package]
name = "klass_gateway"
version = "0.1.0"
edition = "2021"
publish = false

[dependencies]
rust_decimal = "1"
regex = "1"
sha2 = "0.10"
hex = "0.4"
serde = { version = "1", features = ["derive"] }
serde_json = "1"
uuid = { version = "1", features = ["v4", "serde"] }
chrono = { version = "0.4", features = ["serde"] }
anyhow = "1"
thiserror = "1"
async-trait = "0.1"
tracing = "0.1"
tokio = { version = "1", features = ["rt", "macros", "sync", "time"] }
sqlx = { version = "0.8", default-features = false, features = ["postgres", "runtime-tokio", "chrono", "uuid", "rust_decimal", "json", "macros"] }
reqwest = { version = "0.12", default-features = false, features = ["json"] }
