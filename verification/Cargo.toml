[package]
name = "user_service"
version = "0.1.0"
edition = "2021"
publish = false

[dependencies]
actix-web = { version = "=4.18.1", default-features = false, features = ["macros", "cookies"] }
actix-session = { version = "=0.7.2", features = ["redis-actor-session"] }
actix-redis = "=0.12.0"
awc = { version = "=3.11.0", default-features = false }
futures = "=0.3.34"
diesel = { version = "=1.4.8", features = ["postgres", "uuidv07", "chrono", "r2d2"] }
uuid = { version = "=0.7.4", features = ["v4", "serde"] }
argonautica = "=0.2.0"
base64 = "=0.10.1"
chrono = { version = "=0.4.45", features = ["serde"] }
dotenv = "=0.14.1"
env_logger = "=0.6.2"
lazy_static = "=1.5.1"
lettre = { version = "=0.9.6", features = ["connection-pool"] }
lettre_email = "=0.9.4"
listenfd = "=0.3.5"
r2d2 = "=0.8.10"
serde = { version = "=1.0.229", features = ["derive"] }
serde_derive = "=1.0.229"
