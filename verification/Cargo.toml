[package]
name = "tjxy_db"
version = "0.1.0"
edition = "2021"
publish = false

[dependencies]
uuid = { version = "1", features = ["v4", "v5"] }
sha2 = "0.10"
chrono = "0.4"
serde = { version = "1", features = ["derive"] }
serde_json = "1"
thiserror = "2"
sea-orm = { version = "1", default-features = false, features = ["with-json", "with-chrono", "with-uuid"] }
