[package]
name = "asahi"
version = "0.1.0"
edition = "2021"
publish = false

[dependencies]
boml = "*"
tinyjson = "2"
chrono-tz = "0.10"
chrono = "0.4"
sunrise = "*"
zbus = "5"
log = "0.4"
simple_logger = "*"
signal-hook = "0.3"
minreq = "2"
iana-time-zone = "0.1"
tz-rs = "*"
anyhow = "1"
