[package]
name = "lottery"
version = "0.1.0"
edition = "2021"
publish = false

[dependencies]
borsh = "=0.10.2"
pchain-sdk = "=0.4.2"
