[package]
name = "asc_marshal"
version = "0.1.0"
edition = "2021"
publish = false

[dependencies]
num-bigint = "0.4"
semver = "1"
thiserror = "1"
