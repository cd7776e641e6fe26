[package]
name = "waylandcraft"
version = "0.1.0"
edition = "2021"
publish = false

[dependencies]
zbus = "=5.19.0"
libc = "=0.2.191"
wayland-client = { version = "=0.31.15", features = ["system", "dlopen"] }
wayland-protocols = { version = "=0.32.13", features = ["client", "unstable"] }
wayland-protocols-wlr = { version = "=0.3.12", features = ["client"] }
rustix = { version = "1", features = ["fs", "process"] }
openh264 = "*"
