[package]
name = "inventario"
version = "0.1.0"
edition = "2021"
publish = false

[dependencies]
bcrypt = "*"
uuid = { version = "1", features = ["v4"] }
strsim = "*"
rusqlite = { version = "*", features = ["bundled"] }
actix-web = "4"
actix-cors = "*"
actix-service = "2"
futures = "0.3"
tokio = { version = "1", features = ["macros", "rt-multi-thread", "sync"] }
serde = { version = "1", features = ["derive"] }
serde_json = "1"
chrono = "0.4"
thiserror = "*"
once_cell = "1"
