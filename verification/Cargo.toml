[package]
name = "qcli"
version = "0.1.0"
edition = "2021"
publish = false

[dependencies]
chrono = "=0.4.45"
clap = "=2.34.0"
structopt = "=0.3.26"
linefeed = "=0.6.0"
config = { version = "=0.10.1", default-features = false, features = ["yaml"] }
attohttpc = { version = "=0.31.0", default-features = false, features = ["tls-native"] }
