[package]
name = "bls_zk_prover"
version = "0.1.0"
edition = "2021"
publish = false

[dependencies]
ark-bn254 = "*"
ark-ec = "*"
ark-ff = "*"
ark-groth16 = "*"
ark-relations = "*"
ark-serialize = "*"
ark-std = "*"
clap = { version = "*", features = ["derive"] }
hex = "*"
num-bigint = "*"
serde = { version = "*", features = ["derive"] }
serde_json = "*"
tokio = { version = "*", features = ["rt-multi-thread", "macros"] }
