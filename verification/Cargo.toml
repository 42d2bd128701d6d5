[package]
name = "pact_verifier_nif"
version = "0.1.0"
edition = "2021"
publish = false

[dependencies]
env_logger = "*"
log = "*"
pact_models = "*"
pact_verifier = { version = "*", default-features = false }
rustler = "*"
