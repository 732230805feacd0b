[package]
name = "exif_api"
version = "0.1.0"
edition = "2021"
publish = false

[dependencies]
serde_json = "=1.0.154"
actix-web = "=4.18.1"
actix-multipart = "=0.8.5"
actix-cors = "=0.7.2"
futures-util = "=0.3.34"
tempfile = "=3.27.0"
env_logger = "=0.11.11"
log = "=0.4.35"
