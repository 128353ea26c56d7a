[package]
name = "event_tickets"
version = "0.1.0"
edition = "2021"
publish = false

[dependencies]
anchor-lang = "=1.2.0"
anchor-spl = { version = "=1.2.0", default-features = false, features = ["token", "token_2022", "associated_token"] }
solana-zero-copy = "=1.3.0"
spl-token-2022 = "=11.1.0"
spl-tlv-account-resolution = "=0.11.4"
spl-transfer-hook-interface = "=2.1.0"
spl-token-metadata-interface = "=1.0.1"
spl-type-length-value = "=0.9.1"
spl-discriminator = "=0.5.2"
