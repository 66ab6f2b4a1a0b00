[package]
name = "tokio_maybe_tls"
version = "0.1.0"
edition = "2021"
publish = false

[dependencies]
async-native-tls = "0.5"
futures-io = "0.3"
futures-rustls = { version = "0.26", default-features = false }
native-tls = "0.2"
rustls = { version = "0.23", default-features = false, features = ["ring", "std"] }
tokio = { version = "1", default-features = false }
tokio-native-tls = "0.3"
tokio-rustls = { version = "0.26", default-features = false }

[dev-dependencies]
rcgen = "0.13"
