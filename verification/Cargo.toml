[package]
name = "patina_components"
version = "0.1.0"
edition = "2021"
publish = false

[dependencies]
patina = "*"
r-efi = "*"
log = "0.4"
