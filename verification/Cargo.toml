[package]
name = "summit"
version = "0.1.0"
edition = "2021"
publish = false

[dependencies]
alloy-eips = { version = "1", default-features = false }
alloy-primitives = { version = "1", default-features = false }
alloy-rpc-types-engine = { version = "=1.0.23", default-features = false, features = ["std", "jwt"] }
bytes = "1"
clap = { version = "4", default-features = false, features = ["std", "help", "usage", "error-context", "derive"] }
commonware-codec = "=0.0.54"
commonware-cryptography = "=0.0.54"
commonware-utils = "=0.0.54"
futures = "0.3"
governor = "0.6"
rand = "0.8"
serde = { version = "1", features = ["derive"] }
toml = "0.8"
tracing = "0.1"
url = "2"
