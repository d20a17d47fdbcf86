[package]
name = "term_chart"
version = "0.1.0"
edition = "2021"
publish = false

[dependencies]
term_size = "0.3"
libc = "0.2"
clap = "2"
curl = "0.4"
rand = "0.8"
chrono = "0.4"
serde = { version = "1", features = ["derive"] }
serde_json = "1"
