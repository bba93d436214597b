[package]
name = "life_gl"
version = "0.1.0"
edition = "2021"
publish = false

[dependencies]
gfx = "0.17"
log = "0.4"
nom = "4"
rand = "0.5"
simon = "0.3"
simple_logger = "1"
