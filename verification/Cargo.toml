[package]
name = "tango"
version = "0.1.0"
edition = "2021"
publish = false

[dependencies]
argon2 = "=0.5.3"
askama = "=0.16.1"
axum = "=0.8.9"
axum-extra = { version = "=0.12.6", features = ["cookie"] }
confy = "=2.0.0"
governor = "=0.10.4"
password-hash = { version = "=0.5.0", features = ["getrandom"] }
serde = { version = "=1.0.229", features = ["derive"] }
sqlx = { version = "=0.8.6", default-features = false, features = ["postgres", "runtime-tokio", "migrate"] }
thiserror = "=2.0.21"
tokio = { version = "=1.54.1", features = ["macros", "net", "rt", "time", "io-util", "sync", "signal"] }
tracing = "=0.1.44"
tracing-subscriber = { version = "=0.3.23", features = ["env-filter", "time"] }
