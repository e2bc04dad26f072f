[package]
name = "infer_intf"
version = "0.1.0"
edition = "2021"
publish = false

[dependencies]
ropey = "*"
async-lsp = "*"
async-process = "*"
clap = { version = "*", features = ["derive"] }
color-eyre = "*"
futures = "*"
lsp-types = "*"
tokio = { version = "*", features = ["rt", "macros"] }
tower = "*"
tracing = "*"
tracing-subscriber = "*"
