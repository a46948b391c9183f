[package]
name = "ecdsa_spartan2"
version = "0.1.0"
edition = "2021"
publish = false

[dependencies]
bellpepper-core = "*"
circom-scotia = "*"
ff = "*"
serde_json = "*"
spartan2 = "*"
tracing = "*"
tracing-subscriber = { version = "*", features = ["env-filter"] }
witnesscalc-adapter = "*"
