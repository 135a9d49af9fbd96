[package]
name = "chime_bot"
version = "0.1.0"
edition = "2021"
publish = false

[dependencies]
async-trait = "0.1"
bus = "2"
chrono = "0.4"
config = { version = "0.13", default-features = false, features = ["toml"] }
fern = { version = "0.7", features = ["colored"] }
ffprobe = "0.3"
fluent-bundle = "0.15"
fs_extra = "1"
getopts = "0.2"
intl-memoizer = "0.5"
log = "0.4"
nameof = "1"
reqwest = "0.11"
serenity = { version = "0.11", default-features = false, features = ["builder", "cache", "client", "gateway", "model", "http", "utils", "native_tls_backend", "voice"] }
songbird = { version = "0.3", default-features = false, features = ["serenity-native", "driver", "gateway"] }
tokio = { version = "1", features = ["macros", "rt-multi-thread", "signal", "sync", "time"] }
tokio-postgres = "0.7"
unic-langid = "0.9"
url = "2"
uuid = { version = "1", features = ["v4"] }
