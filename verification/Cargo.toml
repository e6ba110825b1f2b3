[package]
name = "oxidize"
version = "0.1.0"
edition = "2021"
publish = false

[dependencies]
target-lexicon = "0.12"
thiserror = "1"
anyhow = "1"
