[package]
name = "many-node"
version = "0.1.0"
edition = "2021"
publish = false

[dependencies]
clap = { version = "=3.2.25", features = ["derive"] }
minicbor = { version = "=0.18.0", features = ["std", "derive"] }
reqwest = { version = "=0.11.27", default-features = false, features = ["blocking"] }
signal-hook = "=0.3.18"
# The project whose repository is named tracing-syslog is published under this
# name; the package named tracing-syslog has no release but 0.0.0.
syslog-tracing = "=0.3.1"
tendermint-abci = "=0.23.9"
tendermint-proto = "=0.23.9"
tracing = "=0.1.44"
tracing-subscriber = "=0.3.23"
