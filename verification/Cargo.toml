[package]
name = "rust_optimizer"
version = "0.1.0"
edition = "2021"
publish = false

[dependencies]
anyhow = "*"
blake3 = "*"
clap = { version = "*", features = ["derive"] }
crossbeam-channel = "*"
indicatif = "*"
libc = "*"
memmap2 = "*"
num_cpus = "*"
ocl = "*"
rayon = "*"
walkdir = "*"
