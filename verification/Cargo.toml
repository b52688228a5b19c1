[package]
name = "clio"
version = "0.3.5"
edition = "2021"
publish = false

[dependencies]
url = "2"
libc = "0.2"
tempfile = "3"
walkdir = "2"
is-terminal = "0.4"
pipe = "0.4"
ureq = { version = "2", default-features = false }
clap = { version = "4", default-features = false, features = ["std"] }
