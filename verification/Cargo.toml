[package]
name = "dca-rs"
version = "1.0.0"
edition = "2021"
publish = false

[dependencies]
clap = "4"
ogg = "0.9"
serde = { version = "1", features = ["derive"] }
serde_json = "1"
songbird = { version = "0.3", default-features = false, features = ["driver-core"] }
tokio = { version = "1", features = ["macros", "rt-multi-thread"] }
