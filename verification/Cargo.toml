[package]
name = "aiauv"
version = "0.1.0"
edition = "2021"
publish = false

[dependencies]
nalgebra = { version = "=0.34.2", features = ["serde-serialize"] }
multibody_dynamics = "=0.4.2"
ode_solvers = "=0.6.2"
serde = { version = "=1.0.229", features = ["derive"] }
serde_yaml = "=0.9.34"
