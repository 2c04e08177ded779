[package]
name = "sql_pseudonymizer"
version = "0.1.0"
edition = "2021"
publish = false

[dependencies]
actix-rt = "=2.15.0"
actix-web = { version = "=4.18.1", default-features = false, features = ["macros"] }
md5 = "=0.7.0"
serde = { version = "=1.0.229", features = ["derive"] }
serde_json = "=1.0.154"
sqlparser = { version = "=0.63.0", features = ["visitor"] }

[dev-dependencies]
nom = "=7.1.3"
