[package]
name = "katoptron"
version = "0.1.0"
edition = "2021"
publish = false

[dependencies]
byteorder = "=1.5.0"
libc = "=0.2.191"
bincode = "=1.3.3"
serde = "=1.0.229"
serde_derive = "=1.0.229"
crossbeam = "=0.8.5"
crossbeam-channel = "=0.5.17"
hostname = "=0.1.5"
clap = "=2.34.0"
dirs = "=1.0.5"
dbus = "=0.6.5"
libdbus-sys = { version = "=0.2.7", features = ["vendored"] }
notify-rust = "=3.6.3"
scopeguard = "=1.2.0"
winapi = { version = "=0.3.9", features = ["winuser", "minwindef", "windef", "winnt", "basetsd"] }
