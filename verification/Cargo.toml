[package]
name = "mpd_display"
version = "0.1.0"
edition = "2021"
publish = false

[dependencies]
egui = "=0.34.3"
egui_speedy2d = "=0.6.0"
log = "=0.4.34"
mpd = "=0.1.0"
simple_logger = "=5.2.0"
speedy2d = "=3.1.0"
