[package]
name = "aoede"
version = "0.1.0"
edition = "2021"
publish = false

[dependencies]
byteorder = "=1.5.0"
uuid = { version = "=1.29.0", features = ["v4"] }
rubato = "=0.15.0"
figment = { version = "=0.10.19", features = ["toml", "env"] }
serde = { version = "=1.0.229", features = ["derive"] }
tokio = { version = "=1.54.1", default-features = false, features = ["rt-multi-thread", "macros", "sync", "time"] }
futures-util = { version = "=0.3.34", default-features = false, features = ["std"] }
librespot = { version = "=0.7.1", default-features = false, features = ["rustls-tls-webpki-roots", "with-libmdns"] }
rustls = { version = "=0.23.46", default-features = false, features = ["ring", "std", "logging", "tls12"] }
symphonia = { version = "=0.5.5", default-features = false }
tracing-subscriber = "=0.3.23"
vergen = { version = "=9.0.6", default-features = false }
