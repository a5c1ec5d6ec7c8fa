[package]
name = "druid"
version = "0.1.0"
edition = "2021"
publish = false

[dependencies]
druid-shell = "0.8"
kurbo = "0.9"
instant = "0.1"
tracing = "0.1"
log = "0.4"
unicode-segmentation = "1"
