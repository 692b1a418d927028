[package]
name = "rp235x-sys"
version = "0.1.0"
edition = "2021"
publish = false

[dependencies]
rp235x-pac = { version = "*", default-features = false }
riscv = "*"
cortex-m = "*"
