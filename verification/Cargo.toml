[package]
name = "bytecode_stats"
version = "0.1.0"
edition = "2021"
publish = false

[dependencies]
anyhow = "=1.0.104"
structopt = "=0.3.26"
