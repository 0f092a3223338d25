[package]
name = "rest_client"
version = "0.1.0"
edition = "2021"
publish = false

[dependencies]
reqwest = { version = "=0.12.28", features = ["blocking", "json", "multipart", "rustls-tls", "native-tls", "hickory-dns"] }
libc = "=0.2.190"
log = "=0.4.34"
fern = "=0.7.1"
chrono = "=0.4.45"
