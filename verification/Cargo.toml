[package]
name = "ffb_structs"
version = "0.1.0"
edition = "2021"
publish = false

[dependencies]
serde = { version = "*", features = ["derive"] }
serde_json = "*"
regex = "*"
magic-crypt = "3"
redis = "*"
sqlx = { version = "0.8", features = ["mysql", "runtime-tokio", "bigdecimal", "chrono"] }
mongodb = "*"
bson = "2"
futures = "*"
chrono = "*"
uuid = { version = "*", features = ["v4"] }
bigdecimal = "*"
actix-web = "*"
askama = "0.12"
jwt = "0.16"
hmac = "0.12"
sha2 = "0.10"
minreq = { version = "2", features = ["https"] }
log = "*"
env_logger = { version = "*", default-features = false }
dotenv = "*"
lazy_static = "*"
time = "*"
