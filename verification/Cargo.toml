[package]
name = "gcsf"
version = "0.1.0"
edition = "2021"
publish = false

[dependencies]
failure = "=0.1.8"
google-drive3 = "=1.0.14"
hyper = "=0.10.16"
hyper-rustls = "=0.6.2"
log = "=0.4.35"
lru_time_cache = "=0.8.1"
mime-sniffer = "=0.1.3"
serde_json = "=1.0.154"
yup-oauth2 = "=1.0.12"
