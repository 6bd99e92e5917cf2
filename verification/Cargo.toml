[package]
name = "pristup"
version = "0.1.0"
edition = "2021"
publish = false

[dependencies]
serde_json = "*"
urlencoding = "*"
anyhow = "*"
aws-config = { version = "*", default-features = false }
aws-sdk-sts = { version = "*", default-features = false }
aws-types = "*"
clap = { version = "*", features = ["derive"] }
clipboard-ext = "*"
colored = "*"
dirs = "*"
reqwest = { version = "*", default-features = false }
serde = { version = "*", features = ["derive"] }
tokio = { version = "*", features = ["macros", "rt-multi-thread"] }
toml = "*"
tracing = "*"
tracing-subscriber = "*"
url = "*"
