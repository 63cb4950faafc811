[package]
name = "fasttext_serving"
version = "0.1.0"
edition = "2021"
publish = false

[dependencies]
fasttext = "=0.7.8"
clap = "=4.6.7"
log = "=0.4.34"
num_cpus = "=1.17.0"
pretty_env_logger = "=0.5.0"
actix-web = "=4.18.1"
serde = { version = "=1.0.229", features = ["derive"] }
futures = "=0.3.34"
jemallocator = "0.5"
mimalloc = { version = "0.1", default-features = false }
