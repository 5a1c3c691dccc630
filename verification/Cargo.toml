[package]
name = "fslock"
version = "0.2.1"
edition = "2021"
publish = false

[dependencies]
libc = "0.2"
once_cell = "1"
winapi = { version = "0.3", features = ["errhandlingapi", "fileapi", "handleapi", "minwinbase", "minwindef", "synchapi", "winbase", "winerror", "winnt"] }
