[package]
name = "shareshot"
version = "0.1.0"
edition = "2021"
publish = false

[dependencies]
serde_json = "=1.0.154"
mime_guess = "=2.0.5"
urlencoding = "=2.1.3"
url = "=2.5.8"
serde = { version = "1", features = ["derive"] }
toml = "=0.8.23"
thiserror = "=1.0.69"
reqwest = { version = "=0.12.28", features = ["multipart"] }
tokio = { version = "1", features = ["macros", "rt-multi-thread", "sync"] }
clap = { version = "4", features = ["derive"] }
once_cell = "1"
home = "0.5"
log = "0.4"
pretty_env_logger = "0.5"
arboard = { version = "=3.7.0", default-features = false }
ashpd = { version = "=0.13.13", features = ["screenshot"] }
zbus = { version = "5", default-features = false, features = ["tokio"] }
ksni = "=0.3.7"
relm4 = { version = "=0.11.0", features = ["libadwaita", "gnome_46"] }
relm4-icons = "=0.11.0"

[dev-dependencies]
regex = "1"
