[package]
name = "dns_forward_over_tcp"
version = "0.1.0"
edition = "2021"
publish = false

[dependencies]
dns-parser = "*"
num_cpus = "*"
tokio = { version = "*", features = ["rt-multi-thread", "net", "io-util", "macros", "time"] }
crossbeam-channel = "*"
log = "*"
simple_logger = "*"
getopts = "*"
