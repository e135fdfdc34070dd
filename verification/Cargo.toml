[package]
name = "laplace_eq_therm"
version = "0.1.0"
edition = "2021"
publish = false

[dependencies]
serde = { version = "*", features = ["derive"] }
serde_json = "*"
rocket = { version = "*", features = ["json"] }
reqwest = { version = "*", default-features = false, features = ["blocking"] }
serialport = { version = "*", default-features = false }
