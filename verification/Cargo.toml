[package]
name = "rls-desktop"
version = "0.1.0"
edition = "2021"
publish = false

[dependencies]
rand = "0.8"
md5 = "0.7"
urlencoding = "2"
local-ip-address = "0.6"
serde = { version = "1", features = ["derive"] }
serde_json = "1"
ureq = { version = "2", features = ["json"] }
