[package]
name = "payment_initiation"
version = "0.1.0"
edition = "2021"
publish = false

[dependencies]
actix-web = { version = "4", default-features = false, features = ["macros"] }
mongodb = "3"
serde = { version = "1", features = ["derive"] }
uuid = { version = "1", features = ["v4"] }
validator = { version = "*", features = ["derive"] }
