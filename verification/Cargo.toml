[package]
name = "whycant"
version = "0.1.0"
edition = "2021"
publish = false

[dependencies]
anstream = "*"
anstyle = "*"
anstyle-query = "*"
anyhow = "*"
caps = "*"
clap = { version = "4", features = ["derive"] }
clap_complete = "4"
clap_mangen = "*"
config = { version = "*", default-features = false, features = ["toml"] }
inquire = "*"
libc = "*"
rustix = { version = "*", features = ["fs", "process"] }
serde = { version = "1", features = ["derive"] }
serde_json = "1"
sudo = "*"
terminal_size = "*"
toml = "*"
uzers = "*"
xattr = "*"

[dev-dependencies]
tempfile = "*"
