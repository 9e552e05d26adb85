[package]
name = "css_server"
version = "0.1.0"
edition = "2021"
publish = false

[dependencies]
hmac = "=0.12.1"
sha2 = "=0.10.9"
hex = "=0.4.3"
url = "=2.5.8"
uuid = "=1.29.0"
chrono = "=0.4.45"
bigdecimal = "=0.4.11"
argon2 = "=0.5.3"
rand_core = { version = "=0.6.4", features = ["getrandom"] }
jsonwebtoken = "=9.3.1"
diesel = { version = "=2.3.14", default-features = false }
serde = { version = "=1.0.229", features = ["derive"] }
serde_json = "=1.0.154"
clap = { version = "=4.6.7", features = ["derive", "env"] }
native-tls = "=0.2.18"
icalendar = "=0.16.17"
axum = "0.8"
tokio = { version = "1", features = ["macros", "rt-multi-thread", "net"] }
