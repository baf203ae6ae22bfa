[package]
name = "mq_mcp"
version = "0.1.0"
edition = "2021"
publish = false

[dependencies]
mq-lang = "*"
mq-markdown = "*"
mq-hir = "*"
rmcp = { version = "*", features = ["server", "macros", "transport-io"] }
tokio = { version = "*", features = ["macros", "rt-multi-thread", "io-std"] }
miette = "*"
tracing-subscriber = { version = "*", features = ["env-filter"] }

[dev-dependencies]
serde_json = "*"
