[package]
name = "inline_proc_macros"
version = "0.1.0"
edition = "2021"
publish = false

[dependencies]
base64 = "0.13"
proc-macro2 = "1"
quote = "1"
syn = { version = "1", features = ["full"] }
tempdir = "0.3"
watt = "*"
