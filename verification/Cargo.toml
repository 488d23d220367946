[package]
name = "recipe-scrape"
version = "0.1.0"
edition = "2021"
publish = false

[dependencies]
iso8601-duration = { version = "=0.2.0", features = ["serde"] }
reqwest = { version = "=0.11.27", default-features = false, features = ["rustls-tls"] }
serde = { version = "=1.0.229", features = ["derive"] }
serde_json = "=1.0.154"
thiserror = "=1.0.69"
tokio = { version = "=1.54.1", features = ["macros", "rt-multi-thread"] }
url = { version = "=2.5.8", features = ["serde"] }
webpage = { version = "=2.1.0", default-features = false, features = ["serde"] }

[dev-dependencies]
regex = "1"
