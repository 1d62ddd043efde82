[package]
name = "callysto"
version = "0.1.0"
edition = "2021"
publish = false

[dependencies]
crossbeam-channel = "=0.5.17"
cuneiform-fields = "=0.1.1"
deadpool-postgres = "=0.10.5"
futures = "=0.3.34"
nuclei = "=0.4.4"
pin-project-lite = "=0.2.17"
tracing = "=0.1.44"
