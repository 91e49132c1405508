[package]
name = "giftlist"
version = "0.1.0"
edition = "2021"
publish = false

[dependencies]
hex = "=0.4.3"
rand = "=0.8.8"
uuid = { version = "=1.29.0", features = ["v4"] }
serde = { version = "=1.0.229", features = ["derive"] }
serde_json = "=1.0.154"
rocket = { version = "=0.5.2", features = ["secrets"] }
rocket_dyn_templates = { version = "=0.1.0", features = ["handlebars"] }
rocket_sync_db_pools = { version = "=0.1.0", features = ["sqlite_pool"] }
lettre = { version = "=0.10.4", default-features = false, features = ["builder", "smtp-transport", "rustls-tls", "hostname"] }
config-file = "=0.2.3"
