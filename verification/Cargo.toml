[package]
name = "user_repo"
version = "0.1.0"
edition = "2021"
publish = false

[dependencies]
actix-web = { version = "*", default-features = false, features = ["macros"] }
config = "*"
deadpool-postgres = "*"
derive_more = { version = "*", features = ["display", "from"] }
dotenv = "*"
serde = { version = "*", features = ["derive"] }
tokio-postgres = "*"
