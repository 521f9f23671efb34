[package]
name = "resqrypt"
version = "0.1.0"
edition = "2021"
publish = false

[dependencies]
aes-gcm = "0.10"
anyhow = "1"
argon2 = "0.5"
clap = { version = "4", features = ["derive", "env"] }
indicatif = "0.17"
rand = "0.9"
rpassword = "7"
tar = "0.4"
thiserror = "2"
walkdir = "2"
zstd = "0.13"
