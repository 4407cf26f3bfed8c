[package]
name = "dikt"
version = "0.1.0"
edition = "2021"
publish = false

[dependencies]
anyhow = "1"
chrono = { version = "0.4", default-features = false, features = ["std", "clock"] }
clap = { version = "4", default-features = false, features = ["std", "derive", "help"] }
clap-verbosity-flag = { version = "*", default-features = false, features = ["log"] }
ctrlc = "3"
dirs = "5"
env_logger = { version = "0.11", default-features = false }
evdev = { version = "0.12", features = ["tokio"] }
ferrous-opencc = "*"
flate2 = "1"
futures-util = { version = "0.3", default-features = false, features = ["std"] }
gio = "0.20"
glib = "0.20"
gtk4 = "0.9"
libadwaita = "0.7"
log = "0.4"
reqwest = { version = "0.12", default-features = false, features = ["json", "stream", "rustls-tls"] }
rusqlite = { version = "*", features = ["bundled"] }
rusqlite_migration = "*"
serde = { version = "1", features = ["derive"] }
serde_json = "1"
tar = { version = "0.4", default-features = false }
tokio = { version = "1", features = ["rt", "rt-multi-thread", "sync", "time", "macros"] }
zbus = "5"
notify-rust = "4"
