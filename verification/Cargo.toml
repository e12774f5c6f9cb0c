[package]
name = "srscheck"
version = "0.1.0"
edition = "2021"
publish = false

[dependencies]
chrono = { version = "0.4", features = ["serde", "unstable-locales"] }
jaq-core = "*"
jaq-std = "*"
jaq-json = "*"
serde = { version = "1", features = ["derive"] }
serde_json = "1"
toml = "0.8"
reqwest = { version = "0.12", default-features = false, features = ["json", "cookies", "rustls-tls"] }
cookie = "0.18"
tokio = { version = "1", features = ["macros", "rt-multi-thread"] }
clap = { version = "4", features = ["derive"] }
clap-verbosity-flag = { version = "3", features = ["tracing"] }
comfy-table = "7"
config = { version = "0.14", default-features = false, features = ["toml"] }
dirs = "5"
sys-locale = "0.3"
tracing = "0.1"
tracing-subscriber = "0.3"
