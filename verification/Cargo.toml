[package]
name = "contract_env"
version = "0.1.0"
edition = "2021"
publish = false

[dependencies]
parity-scale-codec = "=3.7.5"
pallet-contracts-uapi = "=6.0.0"
syn = { version = "=2.0.119", features = ["full", "extra-traits"] }
darling = "=0.20.11"
proc-macro2 = "=1.0.107"
quote = "=1.0.47"
static_assertions = "=1.1.0"

[dev-dependencies]
blake2 = "=0.10.6"
