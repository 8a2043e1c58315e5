[package]
name = "eth_handlers"
version = "0.1.0"
edition = "2021"
publish = false

[dependencies]
num-bigint = "=0.4.8"
num-traits = "=0.2.19"
prost-types = "=0.13.5"
serde_json = "=1.0.154"
substreams = "=0.6.4"
substreams-ethereum = "=0.10.6"

[dev-dependencies]
ethabi = "=17.2.0"
tiny-keccak = { version = "=2.0.2", features = ["keccak"] }
