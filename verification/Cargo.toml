[package]
name = "fj_core"
version = "0.1.0"
edition = "2021"
publish = false

[dependencies]
approx = "*"
nalgebra = "*"
parry3d-f64 = "*"
thiserror = "*"
