[package]
name = "sxutil"
version = "0.1.0"
edition = "2021"
publish = false

[dependencies]
rs-snowflake = "*"
chrono = "0.4"
prost-types = "0.12"
prost = "0.12"
tonic = "0.10"
http = "0.2"
tokio = { version = "1", features = ["rt-multi-thread", "macros", "sync", "time"] }
futures = "0.3"
log = "0.4"
systemstat = "*"
ctrlc-async = "*"
