[package]
name = "otakuverse"
version = "0.1.0"
edition = "2021"
publish = false

[dependencies]
anchor-lang = { version = "=0.29.0", features = ["init-if-needed"] }
anchor-spl = "=0.29.0"
borsh = "=0.10.4"
mpl-token-metadata = { version = "=1.13.2", features = ["no-entrypoint"] }
spl-associated-token-account = { version = "=2.2.0", features = ["no-entrypoint"] }
# Nothing here calls spl-memo. The token crates above bring it in, and it is
# held at the one 4.0 release that builds on solana-program 1.16 as they do:
# with a later one they would not build together.
spl-memo = { version = "=4.0.0", features = ["no-entrypoint"] }
# Held at 4.0.0 for the same reason.
spl-token = { version = "=4.0.0", features = ["no-entrypoint"] }
