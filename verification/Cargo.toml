[package]
name = "sgrmath_core"
version = "0.1.0"
edition = "2021"
publish = false

[dependencies]
wgpu = "25"
bytemuck = { version = "1", features = ["derive"] }
tokio = { version = "1", features = ["rt"] }
rand = "0.9"
rand_distr = "0.5"
serde = { version = "1", features = ["derive"] }
