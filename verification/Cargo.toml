[package]
name = "craftcms"
version = "0.1.0"
edition = "2021"
publish = false

[dependencies]
argon2 = "0.5"
atty = "0.2"
bytes = "1"
chrono = "0.4"
clap = { version = "4", features = ["derive"] }
futures = "0.3"
lazy_static = "1"
mime = "0.3"
mime_guess = "2"
rpassword = "7"
rusqlite = "0.32"
serde = { version = "1", features = ["derive"] }
serde_json = "1"
tera = "1"
tokio = { version = "1", features = ["full"] }
toml = "0.8"
uuid = { version = "1", features = ["v4"] }
warp = "0.3"
