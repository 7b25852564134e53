[package]
name = "future_clicker"
version = "0.1.0"
edition = "2021"
publish = false

[dependencies]
parking_lot = { version = "=0.12.5", features = ["arc_lock"] }
thiserror = "=1.0.69"

[dev-dependencies]
futures = { version = "=0.3.34", features = ["thread-pool"] }
