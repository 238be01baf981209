[package]
name = "atoma_node"
version = "0.1.0"
edition = "2021"
publish = false

[dependencies]
blake3 = "1"
ciborium = "0.2"
config = { version = "*", default-features = false, features = ["toml"] }
futures = "0.3"
isocountry = "0.3"
nvml-wrapper = "*"
reqwest = { version = "0.12", default-features = false, features = ["json"] }
serde = { version = "1", features = ["derive"] }
serde_json = "1"
sqlx = { version = "0.8", default-features = false, features = ["postgres"] }
sysinfo = "*"
thiserror = "1"
tracing = "0.1"
url = "2"
utoipa = "5"
validator = { version = "*", features = ["derive"] }
