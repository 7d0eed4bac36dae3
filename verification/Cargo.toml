[package]
name = "tcgdex_sdk"
version = "0.1.0"
edition = "2021"
publish = false

[dependencies]
serde_json = "1"
bytes = "1"
thiserror = "*"
url = "2"

[dependencies.reqwest]
version = "*"
default-features = false

[dev-dependencies]
