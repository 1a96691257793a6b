[package]
name = "orbiter_auth"
version = "0.1.0"
edition = "2021"
publish = false

[dependencies]
bcrypt = "=0.19.3"
jsonwebtoken = { version = "=11.1.0", default-features = false, features = ["rust_crypto"] }
chrono = "=0.4.45"
serde_json = "=1.0.151"
validator = "=0.21.0"
serde = { version = "=1.0.229", features = ["derive"] }
actix-web = "=4.15.0"
futures = "=0.3.34"
