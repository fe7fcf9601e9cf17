[package]
name = "wiki_search"
version = "0.1.0"
edition = "2021"
publish = false

[dependencies]
glob = "*"
regex = "*"
log = "*"
serde = { version = "*", features = ["derive"] }
serde_json = "*"
meilisearch-sdk = "*"
