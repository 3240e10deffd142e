[package]
name = "authority_permission"
version = "0.1.0"
edition = "2021"
publish = false

[dependencies]
async-trait = "=0.1.92"
log = "=0.4.34"
rocket = { version = "=0.5.2", default-features = false }
serde = { version = "=1.0.229", features = ["derive"] }
serde_json = "=1.0.154"
sp-consensus-slots = { version = "*", default-features = false }
tikv-client = { version = "=0.4.0", default-features = false }
tokio = { version = "=1.54.1", features = ["rt", "sync"] }
