[package]
name = "kdbx_merge"
version = "0.1.0"
edition = "2021"
publish = false

[dependencies]
keepass = { version = "=0.15.0", features = ["save_kdbx4", "_merge"] }
clap = { version = "=4.6.7", features = ["derive"] }
rpassword = "=7.5.4"
anyhow = "=1.0.104"

[dev-dependencies]
uuid = "=1.27.0"
