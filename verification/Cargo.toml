[package]
name = "thulani_audio"
version = "0.1.0"
edition = "2021"
publish = false

[dependencies]
serde_json = "1"
url = "2"

[dev-dependencies]
regex = "1"
