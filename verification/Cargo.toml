[package]
name = "rust_mysql_crud"
version = "0.1.0"
edition = "2021"
publish = false

[dependencies]
actix-files = "0.6"
actix-web = { version = "4", default-features = false, features = ["macros"] }
diesel = { version = "2", default-features = false, features = ["mysql"] }
dotenv = "0.15"
env_logger = "0.11"
hex = "0.4"
serde = { version = "1", features = ["derive"] }
uuid = { version = "1", features = ["v4"] }
