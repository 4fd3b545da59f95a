[package]
name = "tlms"
version = "0.9.0"
edition = "2021"
publish = false

[dependencies]
chrono = { version = "0.4", features = ["serde"] }
csv = "1"
diesel = { version = "2", default-features = false, features = ["postgres_backend"] }
dotenv = "0.15"
gpx = "*"
log = "0.4"
num-derive = "*"
num-traits = "0.2"
pbkdf2 = "0.11"
reqwest = { version = "0.11", default-features = false, features = ["blocking", "rustls-tls"] }
securefmt = "*"
serde = { version = "1", features = ["derive"] }
serde_json = "1"
struct-field-names-as-array = "*"
utoipa = { version = "*", features = ["uuid", "chrono"] }
uuid = { version = "1", features = ["serde"] }
