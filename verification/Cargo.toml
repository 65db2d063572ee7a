[package]
name = "ull_drivers"
version = "0.1.0"
edition = "2021"
publish = false

[dependencies]
embedded-hal = "1.0"
embedded-hal-async = "1.0"
embedded-graphics-core = "0.4"
serde = { version = "1", default-features = false, features = ["derive"] }
