[package]
name = "acvm_simulator"
version = "0.1.0"
edition = "2021"
publish = false

[dependencies]
wasmer = "=6.1.0"
acvm = "=0.46.0"
getrandom = "=0.2.17"
