[package]
name = "shared_memory"
version = "0.1.0"
edition = "2021"
publish = false

[dependencies]
libc = "*"
winapi = { version = "0.3", features = ["minwindef", "memoryapi", "handleapi", "winnt", "winbase", "basetsd"] }
