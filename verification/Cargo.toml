[package]
name = "fltk-webview"
version = "0.4.0"
edition = "2021"
publish = false

[dependencies]
fltk = "1"
wv-sys = "*"
