[package]
name = "comit_env"
version = "0.1.0"
edition = "2021"
publish = false

[dependencies]
bitcoin = "*"
rand = "0.8"
sha3 = "*"
envfile = "*"
anyhow = "*"
thiserror = "*"
structopt = "*"
tokio-compat = "*"
