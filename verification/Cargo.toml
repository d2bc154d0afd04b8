[package]
name = "pack_overlay"
version = "0.1.0"
edition = "2021"
publish = false

[dependencies]
zip = "*"
image = "*"
msgbox = "*"
nfd2 = "*"
directories-next = "*"
