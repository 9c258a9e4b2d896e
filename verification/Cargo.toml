[package]
name = "tun_provider"
version = "0.1.0"
edition = "2021"
publish = false

[dependencies]
ipnetwork = "=0.21.1"
jnix = { version = "=0.5.3", features = ["derive"] }
err-derive = "=0.3.1"
