[package]
name = "stellar_trust"
version = "0.1.0"
edition = "2021"
publish = false

[dependencies]
soroban-env-host = "=21.2.1"
soroban-sdk = "=21.7.7"
