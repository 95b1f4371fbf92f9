[package]
name = "testcontainers_ext"
version = "0.1.0"
edition = "2021"
publish = false

[dependencies]
testcontainers = "*"
bollard = "*"
futures = "*"
log = "*"
