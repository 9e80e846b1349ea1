[package]
name = "route_dispatch"
version = "0.1.0"
edition = "2021"
publish = false

[dependencies]
axum = "0.2"
http = "0.2"
tower-http = { version = "0.1", features = ["auth"] }
