[package]
name = "ferriscope"
version = "0.1.0"
edition = "2021"
publish = false

[dependencies]
etherparse = "0.13"
dns-parser = "0.8"
chrono = { version = "0.4", default-features = false, features = ["std"] }
pcap = "2"
tokio = { version = "1", features = ["full"] }
clap = { version = "4", features = ["derive"] }
ratatui = "0.29"
crossterm = "0.28"
ctrlc = "3"
