[package]
name = "evm_adapters"
version = "0.1.0"
edition = "2021"
publish = false

[dependencies]
evm = "=0.41.1"
primitive-types = "=0.12.2"
