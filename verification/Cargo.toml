[package]
name = "assembly_lsp"
version = "0.1.0"
edition = "2021"
publish = false

[dependencies]
anyhow = "1"
flexi_logger = "*"
log = "0.4"
lsp-server = "*"
lsp-types = "0.95"
quick-xml = "0.31"
serde = { version = "1", features = ["derive"] }
serde_json = "1"
