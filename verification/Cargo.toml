[package]
name = "voice_session"
version = "0.1.0"
edition = "2021"
publish = false

[dependencies]
poise = { version = "=0.6.2", default-features = false, features = ["cache"] }
reqwest = { version = "=0.12.28", default-features = false }
serenity = { version = "=0.12.5", default-features = false, features = ["cache", "client", "gateway", "model", "rustls_backend", "voice"] }
songbird = { version = "=0.4.6", default-features = false, features = ["driver", "gateway", "rustls", "serenity"] }
uuid = "=1.29.0"
