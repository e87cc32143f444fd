[package]
name = "rsocx"
version = "0.1.0"
edition = "2021"
publish = false

[dependencies]
getopts = "0.2"
log = "0.4"
net2 = "0.2"
simple_logger = "*"
tokio = { version = "1", features = ["net", "io-util", "rt-multi-thread", "macros"] }
