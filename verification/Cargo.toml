[package]
name = "torsim"
version = "0.1.0"
edition = "2021"
publish = false

[dependencies]
anyhow = "=1.0.104"
chrono = "=0.4.45"
crossbeam = "=0.8.5"
log = "=0.4.34"
rayon = "=1.12.0"
