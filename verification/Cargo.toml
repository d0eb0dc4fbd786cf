[package]
name = "limit_up"
version = "0.1.0"
edition = "2021"
publish = false

[dependencies]
clap = { version = "=4.6.7", features = ["derive"] }
crossterm = "=0.25.0"
cursive = { version = "=0.20.0", default-features = false, features = ["crossterm-backend"] }
nix = "=0.26.4"
once_cell = "=1.21.4"
r18 = "=0.5.0"
reqwest = { version = "=0.11.27", default-features = false, features = ["rustls-tls"] }
tokio = { version = "=1.54.1", features = ["rt-multi-thread", "process", "io-util", "macros"] }
tui = "=0.19.0"
