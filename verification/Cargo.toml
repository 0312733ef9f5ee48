[package]
name = "idlewatcher"
version = "0.1.0"
edition = "2021"
publish = false

[dependencies]
getopts = "*"
utmp-rs = "*"
wayrs-client = "*"
wayrs-protocols = { version = "*", features = ["ext-idle-notify-v1"] }
wayrs-utils = { version = "*", features = ["seats"] }
