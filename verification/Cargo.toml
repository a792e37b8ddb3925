[package]
name = "minimal_importer"
version = "0.1.0"
edition = "2021"
publish = false

[dependencies]
log = "0.4"
objc2-core-foundation = "*"
oslog = "*"
core-foundation = "*"
objc2 = "*"
objc2-foundation = "*"
