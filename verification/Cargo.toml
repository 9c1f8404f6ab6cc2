[package]
name = "dbms_upended"
version = "0.1.0"
edition = "2021"
publish = false

[dependencies]
xxhash-rust = { version = "0.8", features = ["xxh3"] }
bitcode = { version = "0.6", features = ["derive"] }
rkyv = "0.8"
clap = { version = "4", features = ["cargo"] }
clap_complete = "4"
dialoguer = { version = "0.11", features = ["history"] }
tokio = { version = "1", features = ["macros", "rt-multi-thread"] }
tracing = "0.1"
tracing-subscriber = { version = "0.3", features = ["env-filter"] }
thiserror = "2"
anyhow = "1"
