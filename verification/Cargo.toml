[package]
name = "pcr_predict"
version = "0.1.0"
edition = "2021"
publish = false

[dependencies]
authenticode = { version = "=0.6.0", features = ["object"] }
base64 = "=0.13.1"
clap = { version = "=4.6.7", features = ["derive"] }
color-eyre = "=0.6.5"
digest = "=0.10.7"
fallible-iterator = "=0.2.0"
fancy-regex = "=0.19.2"
hex = "=0.4.3"
libc = "=0.2.190"
object = "=0.39.1"
serde = { version = "=1.0.229", features = ["derive"] }
serde_json = "=1.0.151"
sha1 = "=0.10.7"
sha2 = "=0.10.9"
typed-path = "=0.12.3"
uefi-eventlog = "=0.3.0"
uuid = "=1.27.0"
