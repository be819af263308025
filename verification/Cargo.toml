[package]
name = "arcanaeum"
version = "0.1.0"
edition = "2021"
publish = false

[dependencies]
lz4_flex = "=0.11.6"
byteorder = "=1.5.0"
urlencoding = "=2.1.3"
serde = { version = "=1.0.229", features = ["derive"] }
serde_yaml = "=0.9.34"
tracing = "=0.1.44"
tracing-subscriber = "=0.3.23"
dirs = "=7.0.0"
rust-ini = "=0.21.3"
image = { version = "=0.24.9", default-features = false, features = ["png"] }
eframe = { version = "=0.22.0", default-features = false, features = ["glow", "default_fonts"] }
rfd = { version = "=0.17.2", default-features = false, features = ["xdg-portal"] }
reqwest = { version = "=0.11.27", default-features = false, features = ["json", "rustls-tls"] }
