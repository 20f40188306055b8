[package]
name = "catalog_browser"
version = "0.1.0"
edition = "2021"
publish = false

[dependencies]
base64 = "*"
parse-sap-atom-feed = "*"
actix-web = { version = "*", default-features = false, features = ["macros"] }
reqwest = { version = "*", default-features = false }
serde = { version = "*", features = ["derive"] }
serde_json = "*"
tinytemplate = "*"
log = "*"
env_logger = "*"
anyhow = "*"
