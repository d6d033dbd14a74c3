[package]
name = "rollback_core"
version = "0.1.0"
edition = "2021"
publish = false

[dependencies]
ggrs = "=0.11.1"
matchbox_socket = { version = "=0.14.0", features = ["ggrs"] }
futures = "=0.3.34"
