[package]
name = "cargo_prebuilt"
version = "0.1.0"
edition = "2021"
publish = false

[dependencies]
sha2 = "=0.11.0"
sha3 = "=0.12.0"
const-hex = "=1.19.3"
minisign-verify = "=0.3.0"
flate2 = "=1.1.10"
tar = "=0.4.46"
ureq = "=3.4.2"
serde = { version = "=1.0.229", features = ["derive"] }
serde_json = "=1.0.151"
basic-toml = "=0.1.10"
home = "=0.5.12"
directories = "=6.0.0"
dunce = "=1.0.5"
owo-colors = { version = "=4.4.0", features = ["supports-colors"] }
bpaf = "=0.9.28"
