[package]
name = "mdbook-typst"
version = "0.1.0"
edition = "2021"
publish = false

[dependencies]
anyhow = "=1.0.104"
clap = { version = "=4.6.7", features = ["derive", "env"] }
mdbook-preprocessor = "=0.5.4"
normalize-path = "=0.2.2"
pulldown-cmark = { version = "=0.13.6", default-features = false }
serde = { version = "=1.0.229", features = ["derive"] }
serde_json = "=1.0.154"
tar = "=0.4.46"
toml = "=1.1.8"
typst = "=0.15.1"
typst-kit = { version = "=0.15.1", features = ["embedded-fonts"] }
typst-layout = "=0.15.1"
typst-svg = "=0.15.1"
typst-syntax = "=0.15.1"
