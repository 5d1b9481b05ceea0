[package]
name = "cache_reg"
version = "0.1.0"
edition = "2021"
publish = false

[dependencies]
chan-signal = "*"
dns-lookup = "*"
hostname = "*"
interfaces = "*"
log = "*"
structopt = "*"
systemd = "*"
