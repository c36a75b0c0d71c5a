[package]
name = "anchor_programs"
version = "0.1.0"
edition = "2021"
publish = false

[dependencies]
anchor-lang = "0.31.1"
anchor-spl = { version = "0.31.1", features = ["metadata"] }
solana-program = "2"
switchboard-on-demand = "0.4"
