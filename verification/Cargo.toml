[package]
name = "apple_music_jwt"
version = "0.1.0"
edition = "2021"
publish = false

[dependencies]
base64 = "=0.22.1"
chrono = "=0.4.45"
humantime = "=2.4.0"
openssl = "=0.10.81"
structopt = "=0.3.26"

[dev-dependencies]
frank_jwt = "=3.1.4"
serde_json = "=1.0.151"
