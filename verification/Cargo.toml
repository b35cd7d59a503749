[package]
name = "twoliter"
version = "0.1.0"
edition = "2021"
publish = false

[dependencies]
anyhow = "=1.0.104"
base64 = "=0.22.1"
clap = { version = "=4.6.7", features = ["derive"] }
olpc-cjson = "=0.1.4"
prettytable-rs = "=0.10.0"
semver = { version = "=1.0.28", features = ["serde"] }
serde = { version = "=1.0.229", features = ["derive"] }
serde_json = { version = "=1.0.154", features = ["preserve_order"] }
serde_plain = "=1.0.2"
sha2 = "=0.10.9"
snafu = "=0.8.9"
tar = "=0.4.46"
term_size = "=0.3.2"
tokio = { version = "=1.54.1", features = ["fs", "macros", "rt-multi-thread", "time"] }
toml = "=0.8.23"
