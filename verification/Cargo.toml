[package]
name = "hezi"
version = "0.1.0"
edition = "2021"
publish = false

[dependencies]
flate2 = "1"
bzip2 = "0.4"
rust-lzma = "0.6"
zstd = "0.13"
zip = "0.6"
tar = "0.4"
sevenz-rust = { version = "0.6", features = ["compress", "aes256"] }
cdfs = "0.2"
chrono = "0.4"
serde = { version = "1", features = ["derive"] }
serde_json = "1"
clap = { version = "4", features = ["derive"] }
env_logger = "0.11"
byte-unit = "5"
walkdir = "2"
rayon = "1"
anstyle = "1"
