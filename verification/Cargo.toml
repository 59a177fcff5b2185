[package]
name = "lb_positions"
version = "0.1.0"
edition = "2021"
publish = false

[dependencies]
anchor-lang = "=0.31.2"
anchor-spl = { version = "=0.31.2", default-features = false, features = ["token"] }
anyhow = "=1.0.104"
bytemuck = { version = "=1.25.2", features = ["derive"] }
solana-compute-budget-interface = "=2.2.2"
spl-associated-token-account = { version = "=6.0.0", features = ["no-entrypoint"] }

[dev-dependencies]
mpl-token-metadata = "=5.1.1"
