[package]
name = "keyhunter"
version = "0.1.0"
edition = "2021"
publish = false

[dependencies]
base58 = "=0.2.0"
bloomfilter = "=3.0.2"
clap = "=4.6.7"
rand = "=0.10.3"
rayon = "=1.12.0"
ripemd160 = "=0.9.1"
secp256k1 = "=0.33.1"
sha2 = "=0.11.0"
