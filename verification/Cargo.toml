[package]
name = "users_api"
version = "0.1.0"
edition = "2021"
publish = false

[dependencies]
actix-web = "4"
config = { version = "0.13", default-features = false, features = ["toml"] }
derive_more = "0.99"
dotenvy = "0.15"
futures-util = "0.3"
glob = "0.3"
jsonwebtoken = "9"
paperclip = { version = "0.8", features = ["actix4", "swagger-ui", "v3"] }
serde = { version = "1", features = ["derive"] }
serde_json = "1"
sqlx = { version = "0.7", features = ["runtime-tokio", "postgres", "migrate"] }
tracing = "0.1"
tracing-subscriber = { version = "0.3", features = ["env-filter", "json"] }
