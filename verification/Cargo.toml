[package]
name = "dynsync"
version = "0.1.0"
edition = "2021"
publish = false

[dependencies]
regex = "1"
inotify = "0.2"
docopt = "0.6"
rustc-serialize = "0.3"
env_logger = "0.3"
log = "0.3"
time = "0.1"
