[package]
name = "engine"
version = "0.1.0"
edition = "2021"
publish = false

[dependencies]
serde = { version = "1", features = ["derive"] }
rand = "0.8"
rand_distr = "0.4"
rayon = "1"
