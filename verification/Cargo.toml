[package]
name = "llm_stream_guard"
version = "0.1.0"
edition = "2021"
publish = false

[dependencies]
futures-core = "0.3"
pin-project-lite = "0.2"
serde_json = "1"

[dev-dependencies]
eventsource-stream = "0.2"
futures-util = { version = "0.3", default-features = false, features = ["std"] }
