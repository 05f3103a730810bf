[package]
name = "socketio_emitter"
version = "0.1.0"
edition = "2021"
publish = false

[dependencies]
redis = { version = "0.27", default-features = false }
rmp-serde = "1"
serde = "1"
serde_derive = "1"
serde_json = "1"
