[package]
name = "compositing"
version = "0.1.0"
edition = "2021"
publish = false

[dependencies]
image = { version = "0.25", default-features = false, features = ["png"] }
log = "=0.4.34"
xdg = "=2.5.2"
