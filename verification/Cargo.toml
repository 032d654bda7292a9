[package]
name = "cuda_matmul"
version = "0.1.0"
edition = "2021"
publish = false

[dependencies]
cudarc = { version = "0.12", features = ["cuda-12050"] }
