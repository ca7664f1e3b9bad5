[package]
name = "pd2lcp"
version = "0.1.0"
edition = "2021"
publish = false

[dependencies]
dirs = "=6.0.0"
md-5 = "=0.10.6"
hex = "=0.4.3"
serde = { version = "=1.0.229", features = ["derive"] }
serde_json = "=1.0.154"
toml = "=0.5.11"
tokio = { version = "=1.54.1", features = ["fs", "process", "sync", "io-util", "rt-multi-thread"] }
reqwest = { version = "=0.12.28", default-features = false, features = ["rustls-tls"] }
iced = { version = "=0.14.0", default-features = false, features = ["tiny-skia", "tokio", "x11", "thread-pool"] }
rfd = { version = "=0.15.4", default-features = false, features = ["xdg-portal", "tokio"] }
wayland-sys = { version = "=0.31.11", features = ["dlopen"] }
winreg = "=0.55.0"
