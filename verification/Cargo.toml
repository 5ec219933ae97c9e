[package]
name = "ode_solver"
version = "0.1.0"
edition = "2021"
publish = false

[dependencies]
ndarray = "0.15"
plotters = { version = "0.3", default-features = false, features = ["svg_backend", "line_series"] }
