[package]
name = "glog"
version = "0.1.0"
edition = "2021"
publish = false

[dependencies]
backtrace = "0.3"
chrono = "0.4"
gethostname = "*"
if_empty = "*"
log = "0.4"
nix = { version = "*", features = ["process"] }
termcolor = "1"
thread_local = "1"
whoami = "*"
