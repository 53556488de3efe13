[package]
name = "kusama_bridge_messages"
version = "0.1.0"
edition = "2021"
publish = false

[dependencies]
sp-arithmetic = "*"
sp-runtime = "*"
frame-support = "*"
bp-messages = "*"
bp-runtime = "*"
parity-scale-codec = { version = "*", features = ["derive"] }
scale-info = { version = "*", features = ["derive"] }
