[package]
name = "pc_ints"
version = "0.1.0"
edition = "2021"
publish = false

[dependencies]
libc = "0.2"
winapi = { version = "0.3", features = ["processthreadsapi", "minwindef"] }
