[package]
name = "c_rule_check"
version = "0.1.0"
edition = "2021"
publish = false

[dependencies]
lang-c = "*"
serde = { version = "1", features = ["derive"] }
toml = "*"
