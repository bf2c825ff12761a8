[package]
name = "ipc_mmap"
version = "0.1.0"
edition = "2021"
publish = false

[dependencies]
arrow2 = { version = "=0.18.0", features = ["io_ipc"] }
memmap = "=0.7.0"
serde = { version = "=1.0.229", features = ["derive"] }
