[package]
name = "caravan"
version = "0.1.0"
edition = "2021"
publish = false

[dependencies]
anchor-lang = "=0.28.0"
anchor-spl = "=0.28.0"
# The token-metadata program serialises with borsh 0.9: its instruction data is encoded
# through this crate's trait.
borsh = "=0.9.3"
mpl-token-metadata = { version = "=1.13.2", features = ["no-entrypoint"] }
mpl-token-auth-rules = { version = "=1.4.3-beta.1", features = ["no-entrypoint"] }
spl-account-compression = { version = "=0.2.0", features = ["cpi"] }
# Not called directly. mpl-token-metadata accepts any spl-token below 5 and its
# dependencies any spl-memo 4, and the later 4.0 releases of both need solana-program 2,
# beside which mpl-token-metadata does not build. These two lines hold them at the
# releases made for solana-program 1.16.
spl-token = { version = "=4.0.0", features = ["no-entrypoint"] }
spl-memo = { version = "=4.0.0", features = ["no-entrypoint"] }
