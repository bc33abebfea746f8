[package]
name = "event_sourcing"
version = "0.1.0"
edition = "2021"
publish = false

[dependencies]
async-trait = "0.1"
chrono = "0.4"
cqrs-es = "0.4"
serde = { version = "1", features = ["derive"] }
serde_json = "1"
