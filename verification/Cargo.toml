[package]
name = "htmx_ls"
version = "0.1.0"
edition = "2021"
publish = false

[dependencies]
tree-sitter = "*"
tree-sitter-html = "*"
tower-lsp = "*"
tokio = { version = "*", features = ["full"] }
