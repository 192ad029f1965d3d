[package]
name = "grim"
version = "0.1.0"
edition = "2021"
publish = false

[dependencies]
chrono = "=0.4.45"
rand = "=0.9.5"
serde = { version = "=1.0.229", features = ["derive"] }
serde_json = "=1.0.154"
url = "=2.5.8"
log = "=0.4.34"
grin_core = "=5.5.2"
grin_keychain = "=5.5.2"
grin_chain = "=5.5.2"
grin_util = "=5.5.2"
grin_api = "=5.5.2"
grin_servers = "=5.5.2"
grin_pool = "=5.5.2"
