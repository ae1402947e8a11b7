[package]
name = "open_taffeta"
version = "0.4.1"
edition = "2021"
publish = false

[dependencies]
chrono = "0.4"
crypto-hash = "0.3"
rand = "0.7"
validator = "0.8"
rocket = { version = "0.5", features = ["json", "secrets"] }
rocket_dyn_templates = { version = "*", features = ["tera"] }
diesel = { version = "1.4", features = ["sqlite", "r2d2", "chrono"] }
reqwest = { version = "0.11", default-features = false, features = ["json"] }
serde = { version = "1", features = ["derive"] }
serde_derive = "1"
serde_json = "1"
dotenv = "0.15"
env_logger = "0.9"
log = "0.4"
