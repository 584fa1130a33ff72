[package]
name = "contract_verify"
version = "0.1.0"
edition = "2021"
publish = false

[dependencies]
ethabi = "*"
ureq = "*"
serde_json = "*"
