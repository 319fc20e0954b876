[package]
name = "mail_reader"
version = "0.1.0"
edition = "2021"
publish = false

[dependencies]
mail-parser = "0.11"
chrono = "=0.4.45"
regex = "=1.13.1"
async-imap = { version = "=0.12.0", default-features = false, features = ["runtime-tokio"] }
async-pop2 = "=1.1.1"
proxied = "=1.1.0"
tokio = { version = "1", features = ["net", "rt", "sync", "time"] }
tokio-rustls = { version = "0.26", default-features = false, features = ["ring", "logging", "tls12"] }
rustls = { version = "0.23", default-features = false, features = ["ring", "logging", "std", "tls12"] }
webpki-roots = "1"
async-trait = "0.1"
futures = "0.3"
serde = { version = "1", features = ["derive"] }
thiserror = "1"
