[package]
name = "twitchchat"
version = "0.1.0"
edition = "2021"
publish = false

[dependencies]
pipe-trait = "=0.4.0"
wrap_result = "=0.1.1"
serde = { version = "=1.0.229", features = ["derive"] }
parse-display = "=0.11.0"
derive_more = { version = "=2.1.1", features = ["full"] }

[dev-dependencies]
serde_json = "=1.0.154"
rmp-serde = "=1.3.1"
regex = "=1.13.1"
