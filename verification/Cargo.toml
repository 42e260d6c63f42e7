[package]
name = "ids_monitor"
version = "0.1.0"
edition = "2021"
publish = false

[dependencies]
pnet = "=0.33.0"
chrono = { version = "=0.4.45", default-features = false, features = ["now", "alloc"] }
log = "=0.4.35"
simplelog = "=0.12.2"
