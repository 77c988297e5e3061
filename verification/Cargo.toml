[package]
name = "dhcproto"
version = "0.1.0"
edition = "2021"

[dependencies]
serde = { version = "1", features = ["derive"] }
thiserror = "1"
trust-dns-proto = { version = "0.23", default-features = false }
