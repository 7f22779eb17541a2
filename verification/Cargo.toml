[package]
name = "dos_coarse_time"
version = "0.1.0"
edition = "2021"
publish = false

[dependencies]
der = { version = "*", features = ["alloc"] }
