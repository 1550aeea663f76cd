[package]
name = "peersey"
version = "0.2.0"
edition = "2021"
publish = false

[dependencies]
bytes = "1"
hex = "0.4"
iroh = { version = "*", default-features = false, features = ["tls-ring"] }
iroh-blobs = { version = "*", default-features = false, features = ["fs-store"] }
postcard = { version = "1", features = ["use-std"] }
rand = "*"
serde = { version = "1", features = ["derive"] }
tempfile = "3"
thiserror = "2"
tokio = { version = "1", features = ["full"] }
