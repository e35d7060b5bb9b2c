[package]
name = "minirt"
version = "0.1.0"
edition = "2021"
publish = false

[dependencies]
slab = "0.4"
mio = { version = "*", features = ["os-poll", "net"] }
log = "0.4"
