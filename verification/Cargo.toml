[package]
name = "gitarena"
version = "0.1.0"
edition = "2021"
publish = false

[dependencies]
actix-web = { version = "=4.15.0", default-features = false }
base64 = "=0.23.1"
chrono = "=0.4.45"
git2 = { version = "=0.21.0", default-features = false }
qstring = "=0.7.2"
serde = { version = "=1.0.229", features = ["derive"] }
