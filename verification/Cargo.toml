[package]
name = "hexly"
version = "0.1.0"
edition = "2021"
publish = false

[dependencies]
async-channel = "2"
pcsc = "2"
gtk4 = "*"
libadwaita = "*"
glib = "*"
