[package]
name = "upub"
version = "0.1.0"
edition = "2021"
publish = false

[dependencies]
openssl = "*"
base64 = "*"
uriproxy = "*"
regex = "*"
uuid = { version = "*", features = ["v4"] }
mdhtml = "*"
chrono = "*"
serde = { version = "*", features = ["derive"] }
serde_json = "*"
toml = "*"
jrd = "*"
apb = "*"
sha256 = "*"
clap = { version = "*", features = ["derive"] }
reqwest = { version = "*", default-features = false, features = ["json", "blocking"] }
