[package]
name = "vexide_runtime"
version = "0.3.0"
edition = "2021"
publish = false

[dependencies]
vex-sdk = "*"
embedded-io = "*"
embedded-graphics-core = "*"
snafu = "*"
syn = { version = "2", features = ["full"] }
quote = "1"
proc-macro2 = "1"
compile-time = "*"
