[package]
name = "krakend"
version = "0.1.0"
edition = "2021"
publish = false

[dependencies]
libc = "=0.2.191"
clap = "=2.34.0"
xdg = "=2.5.2"
serde_json = { version = "=1.0.154", features = ["preserve_order"] }
page_size = "=0.4.2"
