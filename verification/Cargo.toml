[package]
name = "user_query"
version = "0.1.0"
edition = "2021"
publish = false

[dependencies]
async-graphql = "*"
async-graphql-axum = "*"
axum = "*"
tokio = { version = "*", features = ["macros", "rt-multi-thread", "net"] }
