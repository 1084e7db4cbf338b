[package]
name = "nfo"
version = "0.1.0"
edition = "2021"
publish = false

[dependencies]
candid = "*"
ic-cdk = "*"
derive_more = { version = "*", features = ["display"] }
serde = { version = "*", features = ["derive"] }
