[package]
name = "btc_transaction_utils"
version = "0.1.0"
edition = "2021"
publish = false

[dependencies]
bitcoin = "=0.32.102"
secp256k1 = "=0.29.1"
hex = "=0.4.3"
rand = "=0.4.6"
serde = "=1.0.229"
serde_str = "=0.1.0"
