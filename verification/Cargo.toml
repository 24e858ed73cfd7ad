[package]
name = "fsevent_watch"
version = "0.1.0"
edition = "2021"
publish = false

[dependencies]
core-foundation = "=0.10.1"
dispatch2 = { version = "=0.3.1", default-features = false, features = ["std"] }
fsevent-sys = "=5.2.0"
jni = "=0.21.1"
