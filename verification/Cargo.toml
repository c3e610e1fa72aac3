[package]
name = "concurrency_observer"
version = "0.1.0"
edition = "2021"
publish = false

[dependencies]
crossbeam = "0.3"
num_cpus = "1"
rand = "0.8"
regex = "1"
thousands = "0.2"
