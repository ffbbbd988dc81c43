[package]
name = "synthcap"
version = "0.1.0"
edition = "2021"
publish = false

[dependencies]
pcap-file = "*"

[dev-dependencies]
pnet_packet = "*"
