[package]
name = "icp_ethereum_wallet"
version = "0.1.0"
edition = "2021"
publish = false

[dependencies]
ic-secp256k1 = "=0.3.0"
ic-sha3 = "=1.0.0"
ic-ethereum-types = "=1.0.0"
ic-cdk = "=0.17.2"
candid = "=0.10.37"
evm-rpc-canister-types = "=5.0.1"
# serde is not used by src/; app/'s candid derives expand to serde paths.
serde = "=1.0.229"
serde_json = "=1.0.151"
num = "=0.4.3"

[dev-dependencies]
k256 = "=0.13.4"
