[package]
name = "sea-orm"
version = "0.1.0"
edition = "2021"
publish = false

[dependencies]
async-trait = "=0.1.92"
futures-util = "=0.3.34"
heck = "=0.5.0"
ouroboros = "=0.18.5"
proc-macro2 = "=1.0.107"
quote = "=1.0.47"
sea-query = "=1.0.2"
serde = { version = "=1.0.229", features = ["derive"] }
serde_json = "=1.0.154"
sqlx = { version = "=0.8.6", default-features = false, features = ["runtime-tokio", "mysql", "postgres", "sqlite"] }
strum = { version = "=0.28.0", features = ["derive"] }
syn = "=2.0.119"
tracing = "=0.1.44"
