[package]
name = "obs_wlroots"
version = "0.1.0"
edition = "2021"
publish = false

[dependencies]
libc = "=0.2.191"
wayland-client = { version = "=0.24.1", default-features = false }
wayland-protocols = { version = "=0.24.1", default-features = false, features = ["client", "unstable_protocols"] }
