[package]
name = "relm4_components"
version = "0.1.0"
edition = "2021"
publish = false

[dependencies]
gtk4 = "*"
relm4 = "=0.1.0"
relm4-macros = "=0.1.0"
tracker = "0.1"
