[package]
name = "note_api"
version = "0.1.0"
edition = "2021"
publish = false

[dependencies]
actix = "0.13"
actix-governor = "0.5"
actix-multipart = "0.6"
actix-web = "4"
actix-web-lab = "0.20"
base32 = "0.5"
bcrypt = "0.15"
chrono = { version = "0.4", features = ["serde"] }
diesel = { version = "2", features = ["postgres", "r2d2", "chrono"] }
dotenv = "0.15"
jsonwebtoken = "9"
lazy_static = "1"
rand = "0.8"
reqwest = { version = "0.12", default-features = false, features = ["json", "multipart", "rustls-tls"] }
serde = { version = "1", features = ["derive"] }
serde_json = "1"
totp-rs = "5"
utoipa = { version = "4", features = ["actix_extras"] }
utoipa-swagger-ui = { version = "7", features = ["actix-web"] }
