[package]
name = "chia_wallet_sdk"
version = "0.1.0"
edition = "2021"
publish = false

[dependencies]
sha2 = "=0.11.0"
clvmr = "=0.21.0"
chia-wallet = "=0.7.0"
chia-protocol = "=0.50.0"
chia-bls = "=0.50.0"
chia-client = "=0.50.0"
chia-sdk-signer = "=0.36.0"
anyhow = "=1.0.104"
thiserror = "=2.0.21"
rand = "=0.8.8"
rand_chacha = "=0.3.1"

[dev-dependencies]
clvm-utils = "=0.50.0"
clvm-traits = "=0.50.0"
hex = "=0.4.3"
