[package]
name = "mods_settings"
version = "0.1.0"
edition = "2021"
publish = false

[dependencies]
gtk4 = "*"
libadwaita = "*"
relm4 = "*"
rfd = "*"
tracing = "*"
