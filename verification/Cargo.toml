[package]
name = "bump_local"
version = "0.1.0"
edition = "2021"
publish = false

[dependencies]
allocator-api2 = { version = "=0.2.21", default-features = false, features = ["alloc"] }
bumpalo = { version = "=3.20.3", features = ["allocator-api2"] }
thread_local = "=1.1.10"

[dev-dependencies]
crossbeam-utils = "0.8"
