[package]
name = "vote_svc"
version = "0.1.0"
edition = "2021"
publish = false

[dependencies]
uuid = "1"
actix-web = { version = "4", default-features = false }
tokio = { version = "1", features = ["macros", "rt-multi-thread", "signal", "sync"] }
serde = { version = "1", features = ["derive"] }
sqlx = { version = "0.8", default-features = false, features = ["runtime-tokio-rustls", "postgres", "uuid", "chrono"] }
chrono = { version = "0.4", default-features = false, features = ["clock", "serde"] }
anyhow = "1"
async-trait = "0.1"
dotenvy = "0.15"
thiserror = "1"
