[package]
name = "enclavekit"
version = "0.1.0"
edition = "2021"
publish = false

[dependencies]
anchor-lang = { version = "=1.2.2", features = ["init-if-needed"] }
borsh = { version = "=1.8.1", features = ["derive"] }
sha2 = "=0.10.9"
solana-sha256-hasher = { version = "=3.1.0", features = ["sha2"] }
solana-instructions-sysvar = "=3.0.1"

[dev-dependencies]
solana-secp256r1-program = "3"
