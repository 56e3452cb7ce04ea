[package]
name = "qshell"
version = "0.1.0"
edition = "2021"
publish = false

[dependencies]
litrs = "=0.4.2"
proc-macro2 = "=1.0.107"
quote = "=1.0.47"
thiserror = "=2.0.21"
