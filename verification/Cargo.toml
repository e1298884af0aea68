[package]
name = "llbot_cli"
version = "0.1.0"
edition = "2021"
publish = false

[dependencies]
serde_json = "1"
ureq = "2"
base64 = "0.22"
qrcode = { version = "0.14", default-features = false }
command-group = "*"
ctrlc = "3"
flate2 = "1"
tar = "0.4"
