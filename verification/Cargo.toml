[package]
name = "udpt_web"
version = "0.1.0"
edition = "2021"
publish = false

[dependencies]
binascii = "*"
actix-web = { version = "4", default-features = false, features = ["macros"] }
