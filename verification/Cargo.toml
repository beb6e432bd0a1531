[package]
name = "terminal"
version = "0.1.0"
edition = "2021"
publish = false

[dependencies]
libc = "0.2"
x11 = { version = "2", features = ["xlib", "xft"] }
