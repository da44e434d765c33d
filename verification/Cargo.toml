[package]
name = "posix_shm"
version = "0.1.0"
edition = "2021"
publish = false

[dependencies]
windows-sys = { version = "0.48", features = ["Win32_Foundation", "Win32_Security", "Win32_System_Memory", "Win32_Storage_FileSystem"] }
