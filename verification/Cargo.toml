[package]
name = "r0vm_core"
version = "0.1.0"
edition = "2021"
publish = false

[dependencies]
keccak = "0.1"
bytemuck = "1"
anyhow = "1"
hex = "0.4"
sha2 = "0.10"
aes-gcm = "0.10"
serde_json = "1"
