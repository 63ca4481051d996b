[package]
name = "siliconv"
version = "0.1.0"
edition = "2021"
publish = false

[dependencies]
slc_oxide = "*"
thiserror = "*"
syn = { version = "*", features = ["full"] }
quote = "*"
darling = "*"
proc-macro2 = "*"
