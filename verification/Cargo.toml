[package]
name = "fluxfox_web"
version = "0.1.0"
edition = "2021"
publish = false

[dependencies]
fluxfox = { version = "=0.1.0", default-features = false, features = ["zip", "mfi"] }
log = "=0.4.34"
serde = { version = "=1.0.229", features = ["derive"] }
