[package]
name = "windows_kernel"
version = "0.1.0"
edition = "2021"
publish = false

[dependencies]
cty = "0.2"
windows-sys = { version = "0.52", features = ["Win32_Foundation", "Win32_Security", "Win32_Storage_InstallableFileSystems"] }
