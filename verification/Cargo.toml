[package]
name = "spord_tracker"
version = "0.1.0"
edition = "2021"
publish = false

[dependencies]
bcrypt = "*"
actix-web = "*"
actix-identity = "*"
actix-session = { version = "*", features = ["cookie-session"] }
async-sqlite = "*"
chrono = "*"
clap = { version = "*", features = ["cargo"] }
anyhow = "*"
flexi_logger = "*"
log = "*"
rpassword = "*"
serde = { version = "*", features = ["derive"] }
serde_json = "*"
thiserror = "*"
