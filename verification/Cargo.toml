[package]
name = "cobase"
version = "0.1.0"
edition = "2021"
publish = false

[dependencies]
nanoid = "*"
serde = { version = "1", features = ["derive"] }
serde_json = "1"
validator = { version = "*", features = ["derive"] }
strum = "*"
strum_macros = "*"
actix = "*"
actix-web = { version = "*", default-features = false, features = ["macros"] }
actix-cors = "*"
actix-web-middleware-keycloak-auth = "*"
async-trait = "*"
config = { version = "*", default-features = false }
couchbase = "*"
dotenv = "*"
env_logger = "*"
eventstore = "*"
futures = "*"
lazy_static = "*"
log = "*"
mobc = "*"
mobc-redis = "*"
tokio = { version = "1", features = ["rt-multi-thread", "macros", "time"] }
