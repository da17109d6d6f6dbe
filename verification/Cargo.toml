[package]
name = "keylime_agent"
version = "0.1.0"
edition = "2021"
publish = false

[dependencies]
actix-web = "4"
base64 = "0.13"
futures = "0.3"
hex = "0.4"
log = "0.4"
openssl = "0.10"
pretty_env_logger = "0.4"
tss-esapi = "7"
uuid = { version = "0.8", features = ["v4"] }
