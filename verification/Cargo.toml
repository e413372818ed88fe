[package]
name = "void_pointer_core"
version = "0.1.0"
edition = "2021"
publish = false

[dependencies]
serde = { version = "=1.0.229", default-features = false, features = ["derive"] }
postcard = "=1.1.3"
half = "=2.7.1"
libm = "=0.2.16"
fugit = "=0.3.9"
heapless = "=0.8.0"
log = "=0.4.35"
bindgen = "*"
cbindgen = "*"
