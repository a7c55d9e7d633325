[package]
name = "bookbinder"
version = "0.1.0"
edition = "2021"
publish = false

[dependencies]
aho-corasick = "=0.7.20"
pulldown-cmark = { version = "=0.8.0", default-features = false }
regex = "=1.13.1"
time = "=0.1.45"
uuid = { version = "=0.8.2", features = ["v4"] }
serde = { version = "=1.0.229", features = ["derive"] }
serde_json = "=1.0.154"
zip = { version = "=0.5.13", default-features = false, features = ["deflate"] }
image = { version = "*", default-features = false, features = ["jpeg", "png"] }
resvg = "*"
usvg = "*"
fontdb = "*"
base64 = "*"
