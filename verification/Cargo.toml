[package]
name = "typhon"
version = "0.1.0"
edition = "2021"
publish = false

[dependencies]
sha256 = { version = "1", default-features = false }
serde_json = "1"
tokio = { version = "1", features = ["sync", "rt", "rt-multi-thread", "macros"] }
diesel = { version = "2", features = ["sqlite"] }
rocket = "0.5"
log = "0.4"
once_cell = "1"
seed = "0.10"
gloo-net = "0.2"
