[package]
name = "typed_array"
version = "0.1.0"
edition = "2021"
publish = false

[dependencies]
glib = "=0.14.8"
