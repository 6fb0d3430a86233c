[package]
name = "contract_vm"
version = "0.1.0"
edition = "2021"
publish = false

[dependencies]
hex = "0.4"
actix-web = { version = "4", default-features = false }
