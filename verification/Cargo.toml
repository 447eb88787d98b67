[package]
name = "vivs_images_webserver"
version = "0.1.0"
edition = "2021"
publish = false

[dependencies]
url-escape = "0.1"
convert_case = "0.8"
serde = { version = "1", features = ["derive"] }
serde_json = "1"
sqlx = { version = "0.8", default-features = false, features = ["sqlite", "runtime-tokio"] }
actix-web = { version = "4", default-features = false, features = ["macros"] }
chrono = "0.4"
homedir = "*"
futures = "0.3"
anyhow = "1"
kamadak-exif = "*"
