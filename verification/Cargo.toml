[package]
name = "poly_commit_equivalence"
version = "0.1.0"
edition = "2021"
publish = false

[dependencies]
ark-bn254 = "0.3"
ark-ec = { version = "0.3", features = ["std"] }
ark-ff = { version = "0.3", features = ["std"] }
ark-marlin = { version = "0.3", features = ["std"] }
ark-poly = { version = "0.3", features = ["std"] }
ark-poly-commit = { version = "0.3", features = ["std"] }
ark-serialize = { version = "0.3", features = ["std"] }
ark-std = { version = "0.3", features = ["std"] }
blake2 = "0.9"
digest = "0.9"
rand = "0.8"
