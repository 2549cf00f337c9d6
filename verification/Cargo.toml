[package]
name = "quickfetch"
version = "1.0.0"
edition = "2021"
publish = false

[dependencies]
clap = "4"
local-ip-address = "*"
sysinfo = "0.30"
whoami = "1.5"
