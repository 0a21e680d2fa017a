[package]
name = "notes_app"
version = "0.1.0"
edition = "2021"
publish = false

[dependencies]
actix-cors = "0.6"
actix-web = { version = "4", default-features = false, features = ["macros", "rustls"] }
bcrypt = "0.15"
chrono = "0.4"
diesel = { version = "2", features = ["sqlite", "r2d2", "chrono"] }
diesel_migrations = "2"
dotenv = "0.15"
env_logger = "0.10"
futures = "0.3"
futures-util = "0.3"
jsonwebtoken = "7"
rustls = "0.20"
rustls-pemfile = "1"
serde = { version = "1", features = ["derive"] }
serde_json = { version = "1", features = ["preserve_order"] }
uuid = { version = "1", features = ["v4"] }
