[package]
name = "starknet_in_rust"
version = "0.1.0"
edition = "2021"
publish = false

[dependencies]
cairo-felt = "=0.8.7"
starknet-crypto = "=0.5.2"
num-traits = "=0.2.19"
num-integer = "=0.1.47"
num-bigint = "=0.4.8"
cairo-vm = { version = "=3.2.0", features = ["cairo-1-hints"] }
cairo-lang-casm = "=2.21.0"
cairo-lang-starknet-classes = "=2.21.0"
serde = { version = "=1.0.229", features = ["derive"] }
serde_json = "=1.0.154"
clap = { version = "=4.6.7", features = ["derive"] }
actix-web = "=4.18.1"
awc = "=3.11.0"
sha3 = "=0.10.9"
