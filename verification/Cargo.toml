[package]
name = "roblox_enum"
version = "0.1.0"
edition = "2021"
publish = false

[dependencies]
anyhow = "1"
rbx_reflection = "4"
rbx_reflection_database = "0.2"
rlua = "0.17"
