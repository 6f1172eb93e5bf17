[package]
name = "femark"
version = "0.1.0"
edition = "2021"
publish = false

[dependencies]
pulldown-cmark = "=0.9.6"
pulldown-cmark-frontmatter = "=0.2.0"
slug = "=0.1.6"
once_cell = "=1.21.4"
tree-sitter = "=0.20.10"
tree-sitter-highlight = "=0.20.1"
tree-sitter-rust = "=0.20.4"
tree-sitter-typescript = "=0.20.2"
tree-sitter-javascript = "=0.20.0"
tree-sitter-go = "=0.20.0"
tree-sitter-c = "=0.20.8"
tree-sitter-html = "=0.19.0"
tree-sitter-toml = "=0.20.0"
tree-sitter-python = "=0.20.4"
tree-sitter-dockerfile = "=0.1.0"
tree-sitter-json = "=0.20.2"
