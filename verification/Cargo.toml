[package]
name = "webrtcredux"
version = "0.1.0"
edition = "2021"
publish = false

[dependencies]
webrtc = "=0.14.0"
tokio = { version = "=1.53.2", features = ["rt"] }
