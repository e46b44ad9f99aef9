[package]
name = "statement_ledger"
version = "0.1.0"
edition = "2021"
publish = false

[dependencies]
bcrypt = "*"
chrono = { version = "0.4", features = ["serde"] }
csv = "1"
pdf-extract = "*"
r2d2 = "*"
r2d2_sqlite = "*"
regex = "1"
rusqlite = { version = "*", features = ["bundled"] }
serde = { version = "1", features = ["derive"] }
thiserror = "1"
uuid = { version = "1", features = ["v4"] }
