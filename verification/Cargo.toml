[package]
name = "may_process"
version = "0.1.0"
edition = "2021"
publish = false

[dependencies]
libc = "=0.2.191"
may = "=0.3.51"
winapi = { version = "=0.3.9", features = ["minwindef", "winerror", "handleapi", "processthreadsapi", "synchapi", "threadpoollegacyapiset", "winbase", "winnt"] }
