[package]
name = "fugue_theme"
version = "0.1.0"
edition = "2021"
publish = false

[dependencies]
bitflags = "*"
once_cell = "*"
rustix = { version = "*", features = ["fs"] }
smartstring = "*"
textwrap = "*"
