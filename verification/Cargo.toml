[package]
name = "nu_iox"
version = "0.1.0"
edition = "2021"
publish = false

[dependencies]
arrow = { version = "*", default-features = false, features = ["csv", "json", "prettyprint"] }
csv = "1"
influxdb_iox_client = "*"
nom = "7"
nu-engine = "0.76"
nu-protocol = "0.76"
snafu = "0.7"
tokio = { version = "1", features = ["rt-multi-thread"] }
