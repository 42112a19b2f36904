[package]
name = "sourcetrait_crossplat_windows"
version = "0.1.0"
edition = "2021"
publish = false

[dependencies]
widestring = "1"
sourcetrait_twostr = "=0.0.0-2"
windows-sys = { version = "0.52", features = ["Win32_Foundation", "Win32_NetworkManagement_NetManagement", "Win32_Networking_ActiveDirectory", "Win32_Security", "Win32_Security_Authorization"] }
