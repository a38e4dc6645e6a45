[package]
name = "chay"
version = "0.1.0"
edition = "2021"
publish = false

[dependencies]
clap = { version = "4", features = ["derive"] }
futures-core = "0.3"
log = "0.4"
nix = { version = "0.29", features = ["signal", "fs"] }
prost = "0.13"
serde = { version = "1", features = ["derive"] }
simple-log = "1"
tera = { version = "1", default-features = false }
tokio = { version = "1", features = ["macros", "rt-multi-thread", "sync", "time"] }
tokio-stream = "0.1"
toml = "0.8"
tonic = "0.12"
wildmatch = "2"
