[package]
name = "prefix_proxy"
version = "0.1.0"
edition = "2021"
publish = false

[dependencies]
clap = "=4.6.7"
pretty_env_logger = "=0.5.0"
reqwest = { version = "=0.13.5", default-features = false }
tokio = { version = "=1.53.2", features = ["macros", "rt-multi-thread"] }
url = "=2.5.8"
warp = { version = "=0.4.3", features = ["server"] }
