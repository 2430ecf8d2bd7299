[package]
name = "ultimate_tic_tac_toe"
version = "0.1.0"
edition = "2021"
publish = false

[dependencies]
crossterm = "*"
serde = "*"
serde_derive = "*"
serde_json = "*"
