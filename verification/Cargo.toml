[package]
name = "pixed"
version = "0.1.0"
edition = "2021"
publish = false

[dependencies]
png = "*"
crossterm = "0.25"
tui = "0.19"
thiserror = "*"
