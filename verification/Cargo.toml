[package]
name = "observer_ward"
version = "0.0.1"
edition = "2021"
publish = false

[dependencies]
actix-web = "4"
actix-web-httpauth = "*"
tokio = { version = "1", features = ["rt"] }
futures = "0.3"
serde = { version = "1", features = ["derive"] }
serde_json = "1"
zip = { version = "*", default-features = false }
daemonize = "*"
log = "0.4"
