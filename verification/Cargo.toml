[package]
name = "dncl_trans"
version = "0.1.0"
edition = "2021"
publish = false

[dependencies]
serde_json = "1"
serde = { version = "1", features = ["derive"] }
toml = "*"
reqwest = { version = "*", features = ["blocking", "json"] }
dotenvy = "*"
eyre = "*"
syn = "2"
quote = "1"
proc-macro2 = "1"
