[package]
name = "docrab"
version = "0.1.0"
edition = "2021"
publish = false

[dependencies]
serde = { version = "1", features = ["derive"] }
serde_json = "1"
convert_case = "0.6"
validator = "0.16"
rocket = { version = "0.5", features = ["json"] }
uuid = { version = "1", features = ["v4"] }
diesel = { version = "2", features = ["postgres"] }
rocket_sync_db_pools = { version = "0.1", features = ["diesel_postgres_pool"] }
rocket_cors = "0.6"
lapin = "2"
dotenv = "0.15"
dotenvy = "0.15"
sqlx = { version = "0.7", default-features = false, features = ["postgres", "runtime-tokio"] }
tokio = { version = "1", features = ["full"] }
tokio-executor-trait = "2"
tokio-reactor-trait = "1"
