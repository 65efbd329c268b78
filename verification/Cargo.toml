[package]
name = "photofence"
version = "0.1.0"
edition = "2021"
publish = false

[dependencies]
indicatif = { version = "=0.18.6", features = ["rayon"] }
rayon = "=1.12.0"
rexiv2 = "=0.10.0"
serde = { version = "=1.0.229", features = ["derive"] }
serde_yaml = "=0.9.34"
