[package]
name = "user_service"
version = "0.1.0"
edition = "2021"
publish = false

[dependencies]
actix-web = "4"
mongodb = "*"
serde = { version = "1", features = ["derive"] }
dotenv = "*"
