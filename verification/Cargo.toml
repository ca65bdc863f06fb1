[package]
name = "sequencer"
version = "0.1.0"
edition = "2021"
publish = false

[dependencies]
sha2 = "=0.10.9"
hex = "=0.4.3"
uuid = { version = "=1.27.0", features = ["v4"] }
starknet-core = "=0.16.0"
bincode = "=1.3.3"
serde = { version = "=1.0.229", features = ["derive"] }
serde_json = "=1.0.151"
clap = { version = "=4.6.7", features = ["derive", "env"] }
tendermint-abci = "=0.34.1"
tendermint-proto = "=0.34.1"
tendermint-rpc = { version = "=0.34.1", features = ["http-client"] }
tokio = { version = "1", features = ["rt"] }
tracing = "=0.1.44"
tracing-subscriber = "=0.3.23"
