[package]
name = "wiki_api"
version = "0.1.0"
edition = "2021"
publish = false

[dependencies]
xid = "=1.1.1"
async-graphql = "=5.0.10"
async-graphql-axum = "=5.0.10"
axum = "=0.6.20"
tokio = { version = "=1.54.1", features = ["macros", "rt-multi-thread"] }
