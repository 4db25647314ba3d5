[package]
name = "fhc"
version = "0.1.0"
edition = "2021"
publish = false

[dependencies]
rand = "*"
scraper = "*"
clap = { version = "*", features = ["derive"] }
futures = "*"
reqwest = { version = "*", default-features = false, features = ["rustls-tls"] }
tokio = { version = "*", features = ["rt-multi-thread", "macros", "io-std", "io-util"] }
