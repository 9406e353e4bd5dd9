[package]
name = "zero2prod"
version = "0.1.0"
edition = "2021"
publish = false

[dependencies]
actix-web = "=4.18.1"
chrono = { version = "=0.4.45", default-features = false, features = ["clock"] }
rand = "=0.8.8"
reqwest = { version = "0.11", default-features = false, features = ["json"] }
serde = { version = "=1.0.229", features = ["derive"] }
sqlx = { version = "=0.7.4", default-features = false, features = ["runtime-tokio", "postgres", "uuid", "chrono"] }
tokio = { version = "=1.54.1", features = ["macros", "rt-multi-thread"] }
tracing = "=0.1.44"
tracing-actix-web = "=0.7.25"
unicode-segmentation = "=1.13.3"
uuid = { version = "=1.29.0", features = ["v4"] }
validator = "=0.16.1"
