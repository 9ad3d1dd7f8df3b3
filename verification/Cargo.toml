[package]
name = "ore_genesis"
version = "0.1.0"
edition = "2021"
publish = false

[dependencies]
bytemuck = { version = "=1.25.2", features = ["derive"] }
solana-program = "=2.3.0"
solana-sdk-ids = "=3.1.0"
spl-token = "=9.0.0"
spl-associated-token-account = "=8.0.0"
steel = "=4.0.9"
