[package]
name = "pyrefly"
version = "0.1.0"
edition = "2021"
publish = false

[dependencies]
anstream = "=1.0.0"
anyhow = "=1.0.104"
blake3 = "=1.8.7"
clap = { version = "=4.6.7", features = ["derive"] }
lsp-types = "=0.95.1"
percent-encoding = "=2.3.2"
ruff_annotate_snippets = ">=0.0.1, <0.0.4"
serde = { version = "=1.0.229", features = ["derive"] }
serde_json = "=1.0.154"
starlark_map = "=0.14.2"
tracing = "=0.1.44"
vec1 = "=1.12.1"
yansi = "=1.0.1"
