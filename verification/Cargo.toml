[package]
name = "window_clipboard"
version = "0.1.0"
edition = "2021"
publish = false

[dependencies]
x11rb = "=0.14.0"
thiserror = "=2.0.21"
raw-window-handle = "=0.6.2"
smithay-clipboard = "*"
