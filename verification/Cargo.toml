[package]
name = "fskit_rs"
version = "0.2.0"
edition = "2021"
publish = false

[dependencies]
regex = "1"
plist = "1"
thiserror = "2"
log = "0.4"
futures = "0.3"
async-trait = "0.1"
