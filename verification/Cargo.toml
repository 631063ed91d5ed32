[package]
name = "kcl_language_server_core"
version = "0.1.0"
edition = "2021"
publish = false

[dependencies]
anyhow = "*"
crossbeam-channel = "*"
lsp-server = "*"
lsp-types = "*"
parking_lot = "*"
serde = "*"
serde_json = "*"
threadpool = "*"
