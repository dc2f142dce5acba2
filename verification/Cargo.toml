[package]
name = "pda_pinocchio_mapping"
version = "0.1.0"
edition = "2021"
publish = false

[dependencies]
bytemuck = { version = "1", features = ["derive"] }
pinocchio = "0.9"
pinocchio-pubkey = "0.3"
pinocchio-system = "0.3"
