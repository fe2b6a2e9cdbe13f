[package]
name = "quick_fea"
version = "0.1.0"
edition = "2021"
publish = false

[dependencies]
nalgebra = "*"
sparse21 = "*"

[dev-dependencies]
approx = "*"
