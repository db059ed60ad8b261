[package]
name = "virtio_block"
version = "0.1.0"
edition = "2021"
publish = false

[dependencies]
event-manager = { version = "*", features = ["remote_endpoint"] }
libc = "*"
serde = { version = "*", features = ["derive"] }
vm-memory = { version = "*", features = ["backend-mmap"] }
vmm-sys-util = "*"
