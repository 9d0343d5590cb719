[package]
name = "rig_augmented_canvas"
version = "0.1.0"
edition = "2021"
publish = false

[dependencies]
axum = "*"
rig-core = { version = "=0.43.0", features = ["reqwest"] }
serde = { version = "*", features = ["derive"] }
serde_json = "*"
tokio = { version = "*", features = ["full"] }
tower-http = { version = "*", features = ["cors"] }
tracing = "*"
tracing-subscriber = { version = "*", features = ["env-filter"] }
