[package]
name = "solanum"
version = "0.1.0"
edition = "2021"
publish = false

[dependencies]
syn = "1"
quote = "1"
proc-macro2 = "1"
gtk4 = "0.9"
libadwaita = "0.7"
gio = "0.20"
glib = "0.20"
gstreamer = "0.23"
gstreamer-play = "0.23"
gettext-rs = "0.7"
once_cell = "1"
