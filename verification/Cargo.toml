[package]
name = "libinput_rs"
version = "0.1.0"
edition = "2021"
publish = false

[dependencies]
evdev = "0.13"
libc = "0.2"
log = "0.4"
nix = { version = "0.29", features = ["inotify", "fs"] }
