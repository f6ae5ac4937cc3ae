[package]
name = "opensnitch_tui"
version = "0.1.0"
edition = "2021"
publish = false

[dependencies]
prost = "0.13"
ratatui = "0.29"
serde = "1"
tokio = { version = "1", features = ["macros", "rt-multi-thread"] }
tonic = "0.12"

[dev-dependencies]
regex = "1"
serde_json = "1"
