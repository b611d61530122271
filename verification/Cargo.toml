[package]
name = "raytracing_iow"
version = "0.1.0"
edition = "2021"
publish = false

[dependencies]
anyhow = "1"
rand = { version = "0.8", features = ["small_rng"] }
rayon = "1"
approx = "0.5"
chrono = "0.4"
indicatif = "0.17"
