[package]
name = "admin_core"
version = "0.1.0"
edition = "2021"
publish = false

[dependencies]
pcsc = "=2.9.0"
hex = "=0.4.3"
serde = { version = "=1.0.229", features = ["derive"] }
once_cell = "=1.21.4"
reqwest = { version = "=0.13.5", default-features = false, features = ["json", "blocking", "form"] }
