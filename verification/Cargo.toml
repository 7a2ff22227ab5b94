[package]
name = "s3_manifest"
version = "0.1.0"
edition = "2021"
publish = false

[dependencies]
arrow = { version = "=60.0.0", default-features = false }
parquet = { version = "=60.0.0", default-features = false, features = ["arrow"] }
chrono = { version = "=0.4.45", default-features = false, features = ["std"] }
url = "=2.5.8"
tokio-retry = "=0.3.2"
tokio = { version = "=1.54.1", features = ["rt-multi-thread", "macros", "time"] }
rusoto_core = { version = "=0.48.0", default-features = false, features = ["rustls"] }
rusoto_s3 = { version = "=0.48.0", default-features = false, features = ["rustls"] }
clap = { version = "=3.2.25", features = ["derive"] }
indicatif = "0.17"
tempfile = "=3.27.0"
