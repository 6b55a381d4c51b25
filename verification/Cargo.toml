[package]
name = "ideapad"
version = "0.1.0"
edition = "2021"
publish = false

[dependencies]
solana-program = "=2.3.0"
solana-pubkey = { version = "=4.4.0", features = ["curve25519"] }
solana-instruction = { version = "=3.5.1", features = ["std"] }
solana-system-interface = { version = "=3.3.0", features = ["bincode"] }
spl-associated-token-account = "*"
spl-stake-pool = { version = "=2.2.0", default-features = false, features = ["no-entrypoint"] }
spl-token = { version = "=9.0.0", default-features = false, features = ["no-entrypoint"] }
mpl-token-metadata = "=5.1.1"
