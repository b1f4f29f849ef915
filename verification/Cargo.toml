[package]
name = "dispute_escalation"
version = "0.1.0"
edition = "2021"
publish = false

[dependencies]
soroban-sdk = "23"
stellar-contract-utils = "0.6.0"
stellar-macros = "0.6.0"
