[package]
name = "mountos_desktop"
version = "0.1.0"
edition = "2021"
publish = false

[dependencies]
regex = "1"
serde = { version = "1", features = ["derive"] }
serde_json = "1"
keyring = "3"
open = "5"
which = "8"
thiserror = "2"
