[package]
name = "packet_sniffer"
version = "0.1.0"
edition = "2021"
publish = false

[dependencies]
anyhow = "=1.0.104"
color-eyre = "=0.6.5"
crossterm = "=0.28.1"
etherparse = "=0.19.0"
pcap = "=2.5.0"
ratatui = "=0.29.0"
tokio = { version = "=1.54.1", features = ["rt-multi-thread", "macros", "sync", "time"] }
