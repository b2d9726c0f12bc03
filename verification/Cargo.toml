[package]
name = "nmu"
version = "0.1.0"
edition = "2021"
publish = false

[dependencies]
serde_json = "=1.0.154"
zip = { version = "=9.1.0", default-features = false, features = ["deflate"] }
reqwest = { version = "=0.12.28", default-features = false, features = ["blocking", "rustls-tls"] }
russh = { version = "=0.60.3", default-features = false, features = ["ring"] }
russh-sftp = "=3.0.1"
tokio = { version = "=1.54.1", features = ["rt-multi-thread", "io-util"] }
dotenvy = "=0.15.7"
