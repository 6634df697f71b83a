[package]
name = "shishabot"
version = "0.1.0"
edition = "2021"
publish = false

[dependencies]
radix_trie = "*"
leaky-bucket-lite = "*"
serde_urlencoded = "*"
serde = "*"
http = "0.2"
hyper = { version = "0.14", features = ["client", "http1", "tcp"] }
hyper-rustls = { version = "0.24", features = ["webpki-roots", "http1", "native-tokio"] }
tokio = { version = "1", features = ["rt-multi-thread", "macros", "time", "sync"] }
