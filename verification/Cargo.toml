[package]
name = "spider_network_blocker"
version = "0.1.0"
edition = "2021"

[dependencies]
adblock = { version = "=0.13.3", default-features = false, features = ["embedded-domain-resolver", "full-regex-handling"] }
url = "=2.5.8"
