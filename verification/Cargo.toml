[package]
name = "jarscan"
version = "0.1.0"
edition = "2021"
publish = false

[dependencies]
caps = "*"
nix = { version = "*", features = ["sched", "process", "user", "fs"] }
rc-zip = "*"
rc-zip-sync = "*"
sysinfo = "*"
