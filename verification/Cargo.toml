[package]
name = "kafka_health"
version = "0.1.0"
edition = "2021"
publish = false

[dependencies]
actix-web = { version = "4", default-features = false, features = ["macros"] }
clap = "2"
log = "0.4"
rdkafka = { version = "*", default-features = false }
serde = { version = "1", features = ["derive"] }
simple_logger = "*"
