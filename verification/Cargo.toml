[package]
name = "rsstg"
version = "0.1.0"
edition = "2021"
publish = false

[dependencies]
async-compat = "=0.2.6"
async-std = "=1.13.2"
atom_syndication = "=0.12.10"
chrono = "=0.4.45"
config = { version = "=0.15.27", default-features = false, features = ["toml"] }
regex = "=1.13.1"
reqwest = { version = "=0.13.5", default-features = false }
rss = "=2.1.2"
sedregex = "=0.2.5"
smol = "=2.0.2"
sqlx = { version = "=0.9.0", default-features = false, features = ["postgres", "chrono", "derive", "runtime-tokio"] }
tgbot = "=0.48.1"
toml = "=1.1.8"
ttl_cache = "=0.5.1"
url = "=2.5.8"
