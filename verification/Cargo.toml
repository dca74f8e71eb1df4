[package]
name = "valinoreth"
version = "0.1.0"
edition = "2021"
publish = false

[dependencies]
rand = "0.9"
clap = { version = "4", features = ["derive"] }
derive-getters = "*"
tracing = "0.1"
tracing-subscriber = { version = "0.3", features = ["env-filter"] }
bio = "*"
serde = { version = "1", features = ["derive"] }
