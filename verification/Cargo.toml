[package]
name = "zk_token_sdk"
version = "0.1.0"
edition = "2021"
publish = false

[dependencies]
aes-gcm-siv = "0.10.3"
base64 = "0.21"
bytemuck = { version = "1.13", features = ["min_const_generics"] }
num-derive = "0.3"
num-traits = "0.2"
rand = "0.7"
serde_json = "1.0"
sha3 = "0.9"
solana-program = "~1.16"
solana-sdk = "~1.16"
subtle = "2.4"
thiserror = "1.0"
zeroize = "1.3"
