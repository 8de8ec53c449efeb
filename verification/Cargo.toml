[package]
name = "pallet_template"
version = "0.1.0"
edition = "2021"
publish = false

[dependencies]
frame-support = "=2.0.1"
frame-system = "=2.0.1"
pallet-timestamp = "=2.0.1"
pallet-transaction-payment = "=2.0.1"
parity-scale-codec = { version = "=1.3.7", features = ["derive"] }
serde = { version = "1.0", features = ["derive"] }
sp-arithmetic = "=2.0.1"
sp-core = "=2.0.1"
sp-io = "=2.0.1"
sp-runtime = "=2.0.1"
substrate-bip39 = "=0.4.2"
syn = "=1.0.96"

[dev-dependencies]
pallet-balances = "=2.0.1"
