[package]
name = "account_provisioning"
version = "0.1.0"
edition = "2021"
publish = false

[dependencies]
argon2 = "0.5"
rand_core = { version = "0.6", features = ["getrandom"] }
sqlx = { version = "0.8", default-features = false, features = ["postgres", "runtime-tokio"] }
http = "1"
tracing = "0.1"
