[package]
name = "vmm"
version = "0.1.0"
edition = "2021"
publish = false

[dependencies]
serde = "=1.0.229"
serde_json = "=1.0.154"
vmm-sys-util = "=0.15.0"
