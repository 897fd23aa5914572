[package]
name = "pbrt"
version = "0.1.0"
edition = "2021"
publish = false

[dependencies]
clap = "2"
image = "0.18"
nalgebra = "0.30"
ncollide3d = "0.33"
rand = "0.3"
serde_json = "1"
tobj = "0.1"
uuid = { version = "0.5", features = ["v4"] }
