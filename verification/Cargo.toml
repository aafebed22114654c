[package]
name = "cloak"
version = "0.1.0"
edition = "2021"
publish = false

[dependencies]
base64 = "0.13"
sha2 = "0.10"
rand = "0.8"
serde = { version = "1", features = ["derive"] }
chrono = "0.4"
futures = "0.3"
actix-web = { version = "4", default-features = false }
deadpool-postgres = "0.10"
axum = { version = "0.6", default-features = false, features = ["form"] }
lettre = { version = "0.10", default-features = false, features = ["builder"] }
sqlx = { version = "0.7", default-features = false, features = ["postgres", "chrono", "runtime-tokio", "macros"] }
