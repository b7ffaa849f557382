[package]
name = "robespierre"
version = "0.1.0"
edition = "2021"
publish = false

[dependencies]
rusty_ulid = "*"
serde = "1"
serde_json = "1"
