[package]
name = "rnote_logic"
version = "0.1.0"
edition = "2021"
publish = false

[dependencies]
gtk4 = "*"
libadwaita = "*"
log = "0.4"
nalgebra = "*"
parry2d-f64 = "*"
