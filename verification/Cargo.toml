[package]
name = "nes_tools"
version = "0.1.0"
edition = "2021"
publish = false

[dependencies]
structopt = "=0.3.26"
png = "=0.17.16"
