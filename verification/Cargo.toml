[package]
name = "fariba_ddns"
version = "0.1.0"
edition = "2021"
publish = false

[dependencies]
serde = { version = "*", features = ["derive"] }
serde_json = "*"
tokio = { version = "*", features = ["full"] }
reqwest = { version = "*", default-features = false, features = ["json"] }
futures = "*"
dotenvy = "*"
dirs = "*"
strfmt = "*"
