[package]
name = "hotplug_watch"
version = "0.1.0"
edition = "2021"
publish = false

[dependencies]
atomic-waker = "1"
core-foundation = "0.9"
io-kit-sys = "0.4"
log = "0.4"
