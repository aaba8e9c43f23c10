[package]
name = "dropdown_menu"
version = "0.1.0"
edition = "2021"
publish = false

[dependencies]
orbimage = "=0.1.17"
orbclient = "=0.3.47"
