[package]
name = "etsi014_client"
version = "0.1.0"
edition = "2021"
publish = false

[dependencies]
base64ct = { version = "=1.8.3", features = ["alloc"] }
clap = { version = "=4.6.7", features = ["derive"] }
hex = "=0.4.3"
libc = "=0.2.191"
reqwest = { version = "=0.12.28", default-features = false, features = ["native-tls"] }
secrets = { version = "=1.3.0", features = ["use-libsodium-sys"] }
serde = { version = "=1.0.229", features = ["derive"] }
serde_json = "=1.0.154"
tokio = { version = "=1.54.1", features = ["rt", "macros", "net", "time"] }

[dev-dependencies]
openssl = "=0.10.81"
