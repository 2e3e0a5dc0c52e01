[package]
name = "fltk-evented"
version = "0.1.0"
edition = "2021"
publish = false

[dependencies]
fltk = "1"
tokio = { version = "1", features = ["rt"] }
async-std = "1"
