[package]
name = "typescript_preprocessor"
version = "0.1.0"
edition = "2021"
publish = false

[dependencies]
swc = "=78.0.0"
swc_common = "=26.0.0"
serde_json = "=1.0.151"

[dependencies.quickjs_runtime]
version = "=0.18.0"
default-features = false
features = ["bellard", "console", "settimeout", "setinterval", "setimmediate"]

[dev-dependencies]
futures = "=0.3.34"
