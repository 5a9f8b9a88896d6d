[package]
name = "sundaystudio"
version = "0.1.0"
edition = "2021"
publish = false

[dependencies]
rtrb = "0.3"
serde = { version = "1", features = ["derive"] }
serde_json = "1"
thiserror = "1"
hound = "3.5"
ebur128 = "0.1"
rubato = "0.15"
cpal = "0.15"
uuid = { version = "1", features = ["v7"] }
reqwest = { version = "0.12", default-features = false, features = ["blocking", "rustls-tls"] }
tokio = { version = "1", features = ["rt-multi-thread", "macros"] }
sqlx = { version = "0.8", default-features = false, features = ["sqlite", "runtime-tokio"] }
