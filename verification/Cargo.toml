[package]
name = "phony"
version = "0.1.0"
edition = "2021"
publish = false

[dependencies]
hmac = "=0.13.0"
sha1 = "=0.11.0"
hex = "=0.4.3"
reqwest = { version = "=0.13.5", default-features = false }
tokio = { version = "=1.53.2", features = ["macros", "rt-multi-thread"] }
warp = { version = "=0.4.3", default-features = false, features = ["server"] }
serde = "=1.0.229"
serde_derive = "=1.0.229"
