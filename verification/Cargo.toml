[package]
name = "skin_ini"
version = "0.1.0"
edition = "2021"

[dependencies]
rust-ini = "0.21"
