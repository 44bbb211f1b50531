[package]
name = "azure_blob_sink"
version = "0.1.0"
edition = "2021"
publish = false

[dependencies]
azure_core = { version = "=1.1.0", default-features = false, features = ["reqwest", "hmac_rust"] }
azure_identity = { version = "=1.0.0", default-features = false, features = ["client_certificate"] }
azure_storage_blob = { version = "=1.1.0", default-features = false }
url = { version = "=2.5.8", features = ["serde"] }
no-proxy = "=0.3.7"
reqwest = { version = "=0.13.5", default-features = false }
serde = { version = "=1.0.229", features = ["derive"] }
toml = "=1.1.8"
snafu = "=0.9.2"
futures = "=0.3.34"
async-trait = "=0.1.92"
