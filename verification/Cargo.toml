[package]
name = "vm_harness"
version = "0.1.0"
edition = "2021"
publish = false

[dependencies]
bincode = "1"
prost = "0.13"
solana-bpf-loader-program = "~2.1"
solana-compute-budget = "~2.1"
solana-log-collector = "~2.1"
solana-program-runtime = "~2.1"
solana-sdk = "~2.1"

[dev-dependencies]
solana_rbpf = "~0.8"
