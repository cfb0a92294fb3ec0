[package]
name = "quark_generate"
version = "0.1.0"
edition = "2021"
publish = false

[dependencies]
anyhow = "1"
futures = "0.3"
quinn = "0.7"
tokio = { version = "1", features = ["fs", "process", "macros", "rt-multi-thread"] }
tracing = "0.1"

[dev-dependencies]
indoc = "1"
