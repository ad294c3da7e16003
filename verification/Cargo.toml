[package]
name = "logid"
version = "0.1.0"
edition = "2021"
publish = false

[dependencies]
evident = "*"
serde_json = "1"
lsp-types = "*"
serde = { version = "1", features = ["derive"] }
colored = "*"
once_cell = "1"
thiserror = "1"
