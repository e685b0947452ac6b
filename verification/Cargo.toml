[package]
name = "token_drop"
version = "0.1.0"
edition = "2021"
publish = false

[dependencies]
anchor-lang = "=0.26.0"
anchor-spl = { version = "=0.26.0", features = ["metadata"] }
mpl-token-auth-rules = ">=1.1, <1.4"
mpl-token-metadata = { version = "=1.10.0", features = ["no-entrypoint"] }
solana-program = "=1.14.29"
