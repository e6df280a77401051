[package]
name = "click_tracker"
version = "0.1.0"
edition = "2021"
publish = false

[dependencies]
actix-web = "4"
dotenv = "0.15"
mysql = "*"
serde = { version = "1", features = ["derive"] }
