[package]
name = "send_to_qbt"
version = "0.1.0"
edition = "2021"
publish = false

[dependencies]
anyhow = "=1.0.104"
config = { version = "=0.15.27", default-features = false, features = ["toml", "preserve_order"] }
notify-rust = "=4.18.2"
qbittorrent_rust = "=0.1.3"
tokio = { version = "=1.54.1", features = ["macros", "rt-multi-thread"] }
