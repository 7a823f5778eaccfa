[package]
name = "osma"
version = "0.1.0"
edition = "2021"
publish = false

[dependencies]
sha3 = "=0.10.9"
jsonwebtoken = "=9.3.1"
serde_json = "=1.0.151"
serde = { version = "=1.0.229", features = ["derive"] }
mongodb = "=3.9.1"
bson = "=2.15.0"
chrono = "=0.4.45"
futures = "=0.3.34"
actix-web = "=4.15.0"
actix-rt = "=2.15.0"
actix-cors = "=0.7.2"
dotenv = "=0.15.0"
