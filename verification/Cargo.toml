[package]
name = "xmpp-webhook"
version = "0.1.0"
edition = "2021"
publish = false

[dependencies]
actix-web = "4"
anyhow = "1"
config = "0.15"
futures = "0.3"
jid = "0.12"
minijinja = { version = "2", features = ["loader"] }
serde = { version = "1", features = ["derive"] }
serde-aux = "4"
serde_json = "1"
thiserror = "1"
tokio = { version = "1", features = ["macros", "rt-multi-thread", "sync"] }
tracing = "0.1"
tracing-actix-web = "0.7"
