[package]
name = "dart_bridge"
version = "0.1.0"
edition = "2021"
publish = false

[dependencies]
dart-sys = "*"
extern_executor = "*"
futures = "0.3"
futures-timer = "3"
libc = "0.2"
