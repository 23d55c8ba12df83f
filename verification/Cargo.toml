[package]
name = "soroban_cost_lints"
version = "0.1.0"
edition = "2021"
publish = false

[dependencies]
clippy_utils = "*"
dylint_linting = "*"

[dev-dependencies]
dylint_testing = "*"
