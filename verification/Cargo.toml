[package]
name = "adm_cursos"
version = "0.1.0"
edition = "2021"
publish = false

[dependencies]
rusqlite = { version = "*", features = ["backup"] }
aes-gcm = "0.10"
argon2 = "0.5"
rand = "0.8"
zeroize = "1"
serde = { version = "1", features = ["derive"] }
serde_json = "1"
