[package]
name = "kernel_boot"
version = "0.1.0"
edition = "2021"
publish = false

[dependencies]
x86_64 = { version = "0.15", default-features = false, features = ["instructions"] }
bootloader_api = "0.11"
clap = { version = "4", features = ["derive"] }
ovmf-prebuilt = "=0.1.0-alpha.1"
