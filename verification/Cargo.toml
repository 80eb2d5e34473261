[package]
name = "retsurf"
version = "0.1.0"
edition = "2021"
publish = false

[dependencies]
url = "2"
log = "0.4"
env_logger = "0.11"
html5ever = "0.27"
markup5ever_rcdom = "0.3"
