[package]
name = "zkcg_verifier"
version = "0.1.0"
edition = "2021"
publish = false

[dependencies]
halo2_proofs = "=0.4.0"
pasta_curves = "=0.6.0"
axum = "=0.8.9"
tokio = { version = "=1.53.2", features = ["rt-multi-thread", "macros", "net"] }
serde = { version = "=1.0.229", features = ["derive"] }
base64 = "=0.23.1"
thiserror = "=2.0.21"

[dev-dependencies]
bincode = "=1.3.3"
rand = { version = "=0.10.3", features = ["sys_rng"] }
rand_core = "=0.10.1"
