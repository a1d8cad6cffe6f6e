[package]
name = "maga"
version = "0.1.0"
edition = "2021"
publish = false

[dependencies]
logos = "=0.16.1"
llvm-sys = { version = "=140.1.3", features = ["force-dynamic"] }
