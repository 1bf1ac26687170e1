[package]
name = "folding_schemes"
version = "0.1.0"
edition = "2021"
publish = false

[dependencies]
ark-bn254 = "0.4"
ark-ff = "0.4"
ark-ec = "0.4"
ark-std = "0.4"
ark-serialize = "0.4"
ark-relations = "0.4"
ark-r1cs-std = "0.4"
ark-crypto-primitives = { version = "0.4", features = ["crh", "sponge", "r1cs"] }
ark-poly = "0.4"
ark-poly-commit = "0.4"
ark-groth16 = "0.4"
ark-snark = "0.4"
