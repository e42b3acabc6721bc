[package]
name = "gnss_time"
version = "0.5.0"
edition = "2021"
publish = false

[dependencies]
serde = "1"
