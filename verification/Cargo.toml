[package]
name = "reboost"
version = "0.1.0"
edition = "2021"
publish = false

[dependencies]
mastodon-async = { version = "*", features = ["toml", "mt"] }
tokio = { version = "*", features = ["macros", "rt-multi-thread"] }
futures-util = "*"
log = "*"
femme = "*"
