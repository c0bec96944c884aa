[package]
name = "user_api"
version = "0.1.0"
edition = "2021"
publish = false

[dependencies]
regex = "1"
percent-encoding = "2"
serde_json = "1"
serde = { version = "1", features = ["derive"] }
hyper = { version = "0.14", features = ["full"] }
swagger = "6"
futures = "0.3"
async-trait = "0.1"
