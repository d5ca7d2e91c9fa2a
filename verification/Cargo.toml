[package]
name = "datadog_api"
version = "0.1.0"
edition = "2021"
publish = false

[dependencies]
async-gen = "=0.3.0"
form_urlencoded = "=1.2.2"
futures-core = "=0.3.34"
reqwest = { version = "=0.12.28", features = ["json"] }
serde_json = "=1.0.154"
