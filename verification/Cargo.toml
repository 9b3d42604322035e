[package]
name = "binge_watch_me"
version = "0.1.0"
edition = "2021"
publish = false

[dependencies]
self_update = { version = "0.42", default-features = false, features = ["rustls"] }
serde = { version = "1", features = ["derive"] }
serde_json = "1"
tokio = { version = "1", features = ["rt-multi-thread", "macros", "time", "net", "sync"] }
axum = { version = "0.8", features = ["ws"] }
rust-embed = "8"
keyring = { version = "3", features = ["apple-native"] }
tracing = "0.1"
tracing-subscriber = "0.3"
objc2 = "0.6"
objc2-app-kit = "0.3"
objc2-foundation = "0.3"
coreaudio-sys = "0.2"
