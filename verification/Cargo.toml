[package]
name = "userboot"
version = "0.1.0"
edition = "2021"
publish = false

[dependencies]
memory_addr = "=0.4.1"
axhal = { version = "=0.3.0-preview.3", features = ["uspace", "paging"] }
axmm = "=0.3.0-preview.3"
axtask = { version = "=0.3.0-preview.3", features = ["multitask"] }
