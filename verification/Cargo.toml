[package]
name = "zxcv"
version = "0.1.0"
edition = "2021"
publish = false

[dependencies]
anyhow = "1"
base64 = "*"
ego-tree = "*"
getopt = "*"
percent-encoding = "2"
pledge = "*"
scraper = "*"
serde = { version = "1", features = ["derive"] }
serde_json = "1"
tempfile = "3"
textwrap = "*"
toml = "*"
unicode-width = "*"
ureq = { version = "*", features = ["json"] }
url = "2"
