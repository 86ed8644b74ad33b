[package]
name = "typst_highlight"
version = "0.1.0"
edition = "2021"
publish = false

[dependencies]
sha2 = "0.10"
syntect = "5"
pulldown-cmark = "0.9"
pulldown-cmark-to-cmark = "11"
mdbook = { version = "=0.4.36", default-features = false }
toml = "0.5"
anyhow = "1"
futures = "0.3"
tokio = { version = "1", features = ["rt"] }
async-process = "1"
