[package]
name = "rkg_utils"
version = "0.1.0"
edition = "2021"
publish = false

[dependencies]
bitreader = "*"
chrono = { version = "*", default-features = false, features = ["std"] }
thiserror = "*"
