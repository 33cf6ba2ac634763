[package]
name = "bid_receiver"
version = "0.1.0"
edition = "2021"
publish = false

[dependencies]
actix-web = { version = "*", default-features = false, features = ["macros"] }
lazy_static = "*"
prometheus = "*"
rdkafka = "*"
serde = { version = "*", features = ["derive"] }
serde_json = "*"
