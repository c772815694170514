[package]
name = "tasklist"
version = "0.1.0"
edition = "2021"
publish = false

[dependencies]
actix-rt = "2"
actix-web = "4"
chrono = "=0.4.45"
diesel = { version = "=1.4.8", features = ["sqlite", "r2d2"] }
dotenv = "=0.15.0"
env_logger = "=0.7.1"
juniper = "=0.14.2"
r2d2 = "=0.8.10"
regex = "=1.13.1"
rust-crypto = "=0.2.36"
serde_json = "=1.0.154"
uuid = { version = "=0.8.2", features = ["v4"] }
