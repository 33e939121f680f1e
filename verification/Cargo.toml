[package]
name = "petition"
version = "0.1.0"
edition = "2021"
publish = false

[dependencies]
rusqlite = { version = "*", features = ["bundled"] }
r2d2 = "*"
r2d2_sqlite = "*"
url = "*"
handlebars = "*"
serde = { version = "*", features = ["derive"] }
serde_json = "*"
tide = "*"
async-std = { version = "*", features = ["attributes"] }
