[package]
name = "soundboard"
version = "0.1.0"
edition = "2021"
publish = false

[dependencies]
actix-multipart = { version = "=0.8.5", default-features = false }
actix-web = { version = "=4.18.1", default-features = false, features = ["macros"] }
diesel = { version = "=2.3.14", default-features = false, features = ["sqlite", "r2d2"] }
log = "=0.4.34"
serde = { version = "=1.0.229", features = ["derive"] }
serenity = { version = "=0.12.5", default-features = false, features = ["client", "gateway", "model", "voice", "rustls_backend"] }
songbird = { version = "=0.6.1", default-features = false, features = ["gateway", "serenity"] }
# Not called from this crate. teloxide-core depends on takecell, and takecell
# 0.1.2 asks for Rust 1.96, newer than every other dependency does; this line
# holds it at 0.1.1.
takecell = "=0.1.1"
teloxide = { version = "=0.17.0", default-features = false }
uuid = { version = "=1.29.0", features = ["v4"] }
