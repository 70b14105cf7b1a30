[package]
name = "forum"
version = "0.1.0"
edition = "2021"
publish = false

[dependencies]
actix-web = "4"
actix-files = "0.6"
actix-identity = "0.4"
actix-multipart = "0.4"
anyhow = "1"
argonautica = "0.2"
chrono = { version = "0.4", features = ["serde"] }
dotenv = "0.15"
futures = "0.3"
futures-util = "0.3"
sailfish = "0.8"
serde = { version = "1", features = ["derive"] }
sqlx = { version = "0.6", default-features = false, features = ["runtime-actix-rustls", "mysql", "chrono", "macros"] }
