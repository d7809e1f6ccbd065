[package]
name = "sentrypeer"
version = "4.0.3"
edition = "2021"
publish = false

[dependencies]
chrono = "*"
uuid = { version = "*", features = ["v4"] }
rcgen = "*"
tokio = { version = "*", features = ["full"] }
tokio-rustls = "*"
rustls-pemfile = "*"
rustls-pki-types = "*"
socket2 = "*"
confy = "*"
clap = { version = "*", features = ["derive"] }
serde = { version = "*", features = ["derive"] }
serde_json = "*"
libc = "*"
