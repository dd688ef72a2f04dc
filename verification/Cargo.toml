[package]
name = "rustodoist_rest2"
version = "0.1.0"
edition = "2021"
publish = false

[dependencies]
reqwest = { version = "=0.13.5", default-features = false, features = ["blocking", "query", "rustls"] }
serde_json = "=1.0.151"
uuid = { version = "=1.27.0", features = ["v4"] }
