[package]
name = "obs_wrapper"
version = "0.1.0"
edition = "2021"
publish = false

[dependencies]
log = "0.4"
num-traits = "0.2"
thiserror = "1"
