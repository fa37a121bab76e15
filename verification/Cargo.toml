[package]
name = "sso_env"
version = "0.1.0"
edition = "2021"
publish = false

[dependencies]
anyhow = "1"
aws-config = "*"
aws-sdk-sso = "*"
aws-types = "*"
dirs = "*"
env_logger = "*"
log = "0.4"
serde = "1"
serde_json = "1"
sha1 = "0.6"
structopt = "0.3"
time = { version = "0.3", features = ["formatting", "parsing"] }
tokio = { version = "1", features = ["macros", "rt-multi-thread", "fs"] }
zeroize = "1"
