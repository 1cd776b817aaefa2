[package]
name = "web_project"
version = "0.1.0"
edition = "2021"
publish = false

[dependencies]
bcrypt = "*"
chrono = "0.4"
dotenvy = "*"
jsonwebtoken = "9"
once_cell = "1"
regex = "1"
rocket = { version = "0.5", features = ["json"] }
rust_xlsxwriter = "*"
sea-orm = { version = "1", default-features = false, features = ["macros", "with-json", "with-chrono"] }
serde = { version = "1", features = ["derive"] }
serde_json = "1"
