[package]
name = "fluid_simulation"
version = "0.1.0"
edition = "2021"
publish = false

[dependencies]
anyhow = "1"
serde = { version = "1", features = ["derive"] }
vector2d = "2"
yew = { version = "0.21", features = ["csr"] }
