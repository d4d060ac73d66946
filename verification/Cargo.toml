[package]
name = "hotkey_widget"
version = "0.1.0"
edition = "2021"
publish = false

[dependencies]
global-hotkey = "*"
enigo = "0.1"
