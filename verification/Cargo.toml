[package]
name = "game_escrow"
version = "0.1.0"
edition = "2021"
publish = false

[dependencies]
anchor-lang = "*"
borsh = "0.10.3"
