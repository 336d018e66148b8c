[package]
name = "warmfs"
version = "0.1.0"
edition = "2021"
publish = false

[dependencies]
threadpool = "1"
walkdir = "2"
fs-err = "*"

[dev-dependencies]
tempfile = "3"
symlink = "*"
