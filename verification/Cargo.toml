[package]
name = "bootimg"
version = "0.1.0"
edition = "2021"
publish = false

[dependencies]
gpt = "3"
fatfs = { version = "0.3", default-features = false, features = ["std", "alloc"] }
fscommon = "0.1"
uuid = "1"
clap = { version = "4", features = ["derive"] }
