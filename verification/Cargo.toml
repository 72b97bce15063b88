[package]
name = "e_commerce"
version = "0.1.0"
edition = "2021"
publish = false

[dependencies]
actix-web = "4"
bcrypt = "0.15"
chrono = "0.4"
diesel = { version = "2", features = ["postgres", "r2d2"] }
dotenvy = "0.15"
env_logger = "0.11"
futures-util = "0.3"
jsonwebtoken = "9"
log = "0.4"
once_cell = "1"
reqwest = { version = "0.12", default-features = false, features = ["json"] }
serde = { version = "1", features = ["derive"] }
serde_json = "1"
serde_qs = { version = "0.13", features = ["actix4"] }
validator = { version = "0.18", features = ["derive"] }
