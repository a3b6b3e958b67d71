[package]
name = "blog_api"
version = "0.1.0"
edition = "2021"
publish = false

[dependencies]
actix-multipart = "0.7"
actix-web = { version = "4", default-features = false, features = ["macros"] }
actix-ws = "0.3"
async-trait = "0.1"
aws-config = { version = "1", default-features = false, features = ["behavior-version-latest", "rustls", "rt-tokio"] }
aws-sdk-s3 = { version = "1", default-features = false, features = ["behavior-version-latest", "rustls", "rt-tokio"] }
chrono = { version = "0.4", features = ["serde"] }
dotenv = "0.15"
env_logger = { version = "0.11", default-features = false }
futures-util = "0.3"
jsonwebtoken = "9"
lazy_static = "1"
sea-orm = { version = "1", default-features = false, features = ["macros", "with-chrono", "with-json", "sqlx-postgres", "runtime-tokio"] }
sea-orm-migration = { version = "1", default-features = false, features = ["sqlx-postgres", "runtime-tokio"] }
serde = { version = "1", features = ["derive"] }
serde_json = "1"
sha256 = { version = "1", default-features = false }
uuid = { version = "1", features = ["v4"] }
