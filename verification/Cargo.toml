[package]
name = "atm"
version = "0.1.0"
edition = "2021"
publish = false

[dependencies]
steel-cent = "=0.2.3"
uuid = { version = "=1.29.1", features = ["v4"] }
chrono = "=0.4.45"
rust-argon2 = "=2.1.0"
rand = "=0.8.8"
base64 = "=0.22.1"
rust-crypto = "=0.2.36"
bincode = "=1.3.3"
serde = { version = "=1.0.229", features = ["derive"] }
diesel = { version = "=2.3.14", features = ["postgres", "chrono", "uuid", "r2d2"] }
dotenv = "=0.15.0"
rocket = { version = "0.5", features = ["uuid", "secrets"] }
rocket_dyn_templates = { version = "0.2", features = ["tera"] }
