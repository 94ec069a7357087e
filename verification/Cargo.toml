[package]
name = "vfd_marquee"
version = "0.1.0"
edition = "2021"
publish = false

[dependencies]
hcs-12ss59t = "*"
esp-idf-svc = "*"
embedded-svc = "*"
embedded-hal = "*"
anyhow = "*"
log = "*"
