[package]
name = "apalis-surrealdb"
version = "0.1.0"
edition = "2021"
publish = false

[dependencies]
apalis-core = { version = "=1.0.0-beta.2", default-features = false, features = ["json"] }
apalis-sql = { version = "=1.0.0-beta.2", default-features = false }
futures = "=0.3.34"
surrealdb = { version = "=1.4.2", default-features = false, features = ["kv-mem"] }
ulid = "=1.2.1"

[dev-dependencies]
tokio = { version = "=1.54.1", features = ["rt", "time"] }
